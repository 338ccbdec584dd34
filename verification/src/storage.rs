//! The rules of the notes file: which files exist beside the program, how
//! a damaged notes file is recovered from its backup, and the order of the
//! steps of a save (new text to a temporary file, previous file to the
//! backup, then the temporary file over the notes file).
//!
//! Reading, parsing and writing are done by the caller, which hands each
//! outcome to these functions.

use vstd::prelude::*;
use crate::model::Note;

verus! {

broadcast use vstd::string::group_string_axioms;

/// Name of the notes file.
pub fn notes_file_name() -> (r: &'static str)
    ensures
        r@ == "notes.json"@,
{
    "notes.json"
}

/// Name of the backup of the previous notes file.
pub fn backup_file_name() -> (r: &'static str)
    ensures
        r@ == "notes.backup.json"@,
{
    "notes.backup.json"
}

/// Name of the settings file.
pub fn settings_file_name() -> (r: &'static str)
    ensures
        r@ == "settings.json"@,
{
    "settings.json"
}

/// Name of the temporary file a save writes first.
pub fn temp_file_name() -> (r: &'static str)
    ensures
        r@ == "notes.json.tmp"@,
{
    "notes.json.tmp"
}

/// Name under which a damaged notes file is kept after recovery.
pub fn corrupt_file_name() -> (r: &'static str)
    ensures
        r@ == "notes.corrupt.json"@,
{
    "notes.corrupt.json"
}

/// What reading the notes file gave.
pub enum NotesRead {
    /// The file could not be read (it does not exist yet).
    Missing,
    /// The file holds a valid list of notes.
    Parsed(Vec<Note>),
    /// The file was read but is not a valid list of notes; the parser's message.
    Damaged(String),
    /// The file exists but its bytes are not UTF-8 text; the decoder's message.
    NotText(String),
}

/// The outcome of loading the notes.
pub struct Loaded {
    pub notes: Vec<Note>,
    /// A message for the user, when something went wrong.
    pub message: Option<String>,
    /// Keep a copy of the damaged notes file under `corrupt_file_name()`.
    pub keep_damaged_copy: bool,
}

/// The next step of a load.
pub enum LoadStep {
    Done(Loaded),
    /// The notes file is damaged: read and parse the backup, then call
    /// `after_backup` with this error message.
    ReadBackup(String),
}

/// Message shown after a recovery from the backup.
pub open spec fn restored_message() -> Seq<char> {
    "notes.json が破損していたためバックアップから復元しました。"@
}

/// Start of the message shown when neither the notes file nor its backup
/// could be used; the parser's message follows it.
pub open spec fn unreadable_prefix() -> Seq<char> {
    "notes.json を読み込めませんでした（新規作成します）: "@
}

/// The first step of a load, once the notes file was read: a missing file
/// gives an empty list, a valid one its notes, and a damaged one (not a
/// valid list of notes, or not text at all) sends the load to the backup.
pub fn after_notes_read(read: NotesRead) -> (r: LoadStep)
    ensures
        match read {
            NotesRead::Missing => (r matches LoadStep::Done(l) && l.notes@.len() == 0
                && l.message is None && !l.keep_damaged_copy),
            NotesRead::Parsed(v) => (r matches LoadStep::Done(l) && l.notes == v && l.message is None
                && !l.keep_damaged_copy),
            NotesRead::Damaged(e) => (r matches LoadStep::ReadBackup(e2) && e2 == e),
            NotesRead::NotText(e) => (r matches LoadStep::ReadBackup(e2) && e2 == e),
        },
{
    match read {
        NotesRead::Missing => LoadStep::Done(
            Loaded { notes: Vec::new(), message: None, keep_damaged_copy: false },
        ),
        NotesRead::Parsed(v) => LoadStep::Done(Loaded { notes: v, message: None, keep_damaged_copy: false }),
        NotesRead::Damaged(e) => LoadStep::ReadBackup(e),
        NotesRead::NotText(e) => LoadStep::ReadBackup(e),
    }
}

/// The second step of a load from a damaged notes file. `backup` holds the
/// backup's notes when it could be read and parsed. A usable backup
/// replaces the notes (and the damaged file is kept aside); otherwise the
/// list starts empty and the user is told why.
pub fn after_backup(notes_error: String, backup: Option<Vec<Note>>) -> (r: Loaded)
    ensures
        match backup {
            Some(v) => {
                &&& r.notes == v
                &&& (r.message matches Some(m) && m@ == restored_message())
                &&& r.keep_damaged_copy
            },
            None => {
                &&& r.notes@.len() == 0
                &&& (r.message matches Some(m) && m@ == unreadable_prefix() + notes_error@)
                &&& !r.keep_damaged_copy
            },
        },
{
    match backup {
        Some(v) => Loaded {
            notes: v,
            message: Some(String::from_str("notes.json が破損していたためバックアップから復元しました。")),
            keep_damaged_copy: true,
        },
        None => {
            let m = String::from_str("notes.json を読み込めませんでした（新規作成します）: ").concat(
                notes_error.as_str(),
            );
            Loaded { notes: Vec::new(), message: Some(m), keep_damaged_copy: false }
        },
    }
}

/// The steps of a save.
#[derive(Clone, Copy, PartialEq, Eq, Debug, Structural)]
pub enum SaveStep {
    /// Turn the notes into text. Outcome: whether that worked.
    Serialize,
    /// Write the text to `temp_file_name()`. Outcome: whether that worked.
    WriteTemp,
    /// Look at the notes file as it is before the save. Outcome: whether it
    /// exists and holds a valid list of notes (only such data may become
    /// the backup).
    CheckNotesFile,
    /// Copy the (valid) notes file over the backup. Outcome ignored.
    BackupPrevious,
    /// Rename the temporary file over the notes file. Outcome ignored.
    ReplaceNotesFile,
    /// The save is over.
    Finished,
}

/// The step that follows `step` when it had outcome `ok`.
pub open spec fn save_transition(step: SaveStep, ok: bool) -> SaveStep {
    match step {
        SaveStep::Serialize => if ok {
            SaveStep::WriteTemp
        } else {
            SaveStep::Finished
        },
        SaveStep::WriteTemp => if ok {
            SaveStep::CheckNotesFile
        } else {
            SaveStep::Finished
        },
        SaveStep::CheckNotesFile => if ok {
            SaveStep::BackupPrevious
        } else {
            SaveStep::ReplaceNotesFile
        },
        SaveStep::BackupPrevious => SaveStep::ReplaceNotesFile,
        SaveStep::ReplaceNotesFile => SaveStep::Finished,
        SaveStep::Finished => SaveStep::Finished,
    }
}

/// The step that follows `step` when it had outcome `ok`.
pub fn next_save_step(step: SaveStep, ok: bool) -> (r: SaveStep)
    ensures
        r == save_transition(step, ok),
{
    match step {
        SaveStep::Serialize => if ok {
            SaveStep::WriteTemp
        } else {
            SaveStep::Finished
        },
        SaveStep::WriteTemp => if ok {
            SaveStep::CheckNotesFile
        } else {
            SaveStep::Finished
        },
        SaveStep::CheckNotesFile => if ok {
            SaveStep::BackupPrevious
        } else {
            SaveStep::ReplaceNotesFile
        },
        SaveStep::BackupPrevious => SaveStep::ReplaceNotesFile,
        SaveStep::ReplaceNotesFile => SaveStep::Finished,
        SaveStep::Finished => SaveStep::Finished,
    }
}

/// The steps a save from the start goes through, step `i` having had
/// outcome `outcomes[i]`.
pub open spec fn save_trace(outcomes: Seq<bool>) -> Seq<SaveStep>
    decreases outcomes.len(),
{
    if outcomes.len() == 0 {
        seq![SaveStep::Serialize]
    } else {
        let before = save_trace(outcomes.drop_last());
        before.push(save_transition(before.last(), outcomes.last()))
    }
}

/// A step that writes to the notes file or its backup (or is about to).
pub open spec fn touches_files(step: SaveStep) -> bool {
    step == SaveStep::CheckNotesFile || step == SaveStep::BackupPrevious || step
        == SaveStep::ReplaceNotesFile
}

proof fn lemma_save_trace_len(outcomes: Seq<bool>)
    ensures
        save_trace(outcomes).len() == outcomes.len() + 1,
        save_trace(outcomes)[0] == SaveStep::Serialize,
    decreases outcomes.len(),
{
    if outcomes.len() > 0 {
        lemma_save_trace_len(outcomes.drop_last());
    }
}

/// The backup is replaced only by a notes file that was found to hold a
/// valid list of notes: every `BackupPrevious` step directly follows a
/// `CheckNotesFile` step with a positive outcome. A damaged notes file never
/// overwrites the backup.
pub proof fn backup_receives_only_valid_notes(outcomes: Seq<bool>, j: int)
    requires
        0 <= j <= outcomes.len(),
        save_trace(outcomes)[j] == SaveStep::BackupPrevious,
    ensures
        j >= 1,
        save_trace(outcomes)[j - 1] == SaveStep::CheckNotesFile,
        outcomes[j - 1],
    decreases outcomes.len(),
{
    lemma_save_trace_len(outcomes);
    let n = outcomes.len() as int;
    let before = outcomes.drop_last();
    if n > 0 {
        lemma_save_trace_len(before);
    }
    if j < n {
        assert(save_trace(outcomes)[j] == save_trace(before)[j]);
        backup_receives_only_valid_notes(before, j);
        assert(save_trace(outcomes)[j - 1] == save_trace(before)[j - 1]);
        assert(outcomes[j - 1] == before[j - 1]);
    } else {
        let prev = save_trace(before).last();
        assert(save_trace(outcomes)[j] == save_transition(prev, outcomes.last()));
        assert(save_trace(outcomes)[n - 1] == prev);
    }
}

/// A save replaces the notes file or its backup only after the new text
/// was written to the temporary file: whatever the outcomes, every step
/// that touches those files comes after a successful `WriteTemp`.
pub proof fn save_touches_files_only_after_temp_written(outcomes: Seq<bool>, j: int)
    requires
        0 <= j <= outcomes.len(),
        touches_files(save_trace(outcomes)[j]),
    ensures
        exists|i: int|
            0 <= i < j && save_trace(outcomes)[i] == SaveStep::WriteTemp && #[trigger] outcomes[i],
    decreases outcomes.len(),
{
    lemma_save_trace_len(outcomes);
    let n = outcomes.len() as int;
    let before = outcomes.drop_last();
    lemma_save_trace_len(before);
    if j < n {
        assert(save_trace(outcomes)[j] == save_trace(before)[j]);
        save_touches_files_only_after_temp_written(before, j);
        let i = choose|i: int|
            0 <= i < j && save_trace(before)[i] == SaveStep::WriteTemp && #[trigger] before[i];
        assert(save_trace(outcomes)[i] == save_trace(before)[i]);
        assert(outcomes[i] == before[i]);
    } else {
        let prev = save_trace(before).last();
        assert(save_trace(outcomes)[j] == save_transition(prev, outcomes.last()));
        if prev == SaveStep::WriteTemp {
            assert(outcomes[n - 1]);
            assert(save_trace(outcomes)[n - 1] == prev);
        } else {
            assert(touches_files(prev));
            save_touches_files_only_after_temp_written(before, n - 1);
            let i = choose|i: int|
                0 <= i < n - 1 && save_trace(before)[i] == SaveStep::WriteTemp && #[trigger] before[i];
            assert(save_trace(outcomes)[i] == save_trace(before)[i]);
            assert(outcomes[i] == before[i]);
        }
    }
}

/// When turning the notes into text or writing the temporary file fails,
/// the save ends there and touches no file afterwards.
pub proof fn failed_write_ends_save(outcomes: Seq<bool>, i: int, j: int)
    requires
        0 <= i < j <= outcomes.len(),
        save_trace(outcomes)[i] == SaveStep::Serialize || save_trace(outcomes)[i]
            == SaveStep::WriteTemp,
        !outcomes[i],
    ensures
        save_trace(outcomes)[j] == SaveStep::Finished,
    decreases outcomes.len(),
{
    lemma_save_trace_len(outcomes);
    let n = outcomes.len() as int;
    let before = outcomes.drop_last();
    lemma_save_trace_len(before);
    assert(save_trace(outcomes)[i] == save_trace(before)[i]) by {
        if i < n {
        }
    }
    if j < n {
        assert(outcomes[i] == before[i]);
        failed_write_ends_save(before, i, j);
        assert(save_trace(outcomes)[j] == save_trace(before)[j]);
    } else {
        if i < n - 1 {
            assert(outcomes[i] == before[i]);
            failed_write_ends_save(before, i, n - 1);
        }
    }
}

/// Every save ends: from any step, five transitions reach `Finished`,
/// whatever the outcomes.
pub proof fn save_always_finishes(step: SaveStep, a: bool, b: bool, c: bool, d: bool, e: bool)
    ensures
        save_transition(
            save_transition(
                save_transition(save_transition(save_transition(step, a), b), c),
                d,
            ),
            e,
        ) == SaveStep::Finished,
{
}

} // verus!
