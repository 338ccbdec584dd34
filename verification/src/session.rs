//! The editing session behind the main window: the list of notes, the
//! selection, the note open in the editor, and the decisions the window
//! takes on clicks, focus changes, outside changes of the notes file and
//! auto-save. The window performs the I/O and hands the results in.

use vstd::prelude::*;
use crate::model::{is_blank_note, Note};
use crate::stamp::{is_utc_rfc3339_text, is_uuid_v4_text};
use crate::text::{all_space, is_blank, is_space};

verus! {

broadcast use vstd::string::group_string_axioms;

/// Abstract state of a session.
pub struct SessionView {
    pub notes: Seq<Note>,
    pub selected: nat,
    /// Identifier of the note open in the editor window.
    pub editing: Option<Seq<char>>,
    /// The editor's text field should take the keyboard focus.
    pub focus_editor: bool,
    /// Changes not yet written to disk.
    pub dirty: bool,
    /// Modification stamp of the notes file as of the last load or save.
    pub disk_stamp: Option<i128>,
    pub was_focused: bool,
    /// The notes file changed outside while there were unsaved changes;
    /// the user is being asked what to keep.
    pub external_conflict: bool,
}

impl SessionView {
    /// The selection is on a note, or at 0.
    pub open spec fn wf(self) -> bool {
        self.selected == 0 || (0 <= self.selected < self.notes.len())
    }
}

/// `n` with its position set to `k`.
pub open spec fn with_order(n: Note, k: int) -> Note {
    Note { manual_order: k as i64, ..n }
}

/// The notes with positions renumbered `0, 1, 2, ...` in list order.
pub open spec fn renumbered(s: Seq<Note>) -> Seq<Note> {
    Seq::new(s.len(), |i: int| with_order(s[i], i))
}

/// The selection after the list shrank to `len` notes: kept when still on a
/// note, else moved to the last note (or 0).
pub open spec fn clamped(sel: nat, len: int) -> nat {
    if sel >= len {
        if len > 0 {
            (len - 1) as nat
        } else {
            0
        }
    } else {
        sel
    }
}

/// Index of the first note at or after `k` with identifier `id`.
pub open spec fn find_id_from(s: Seq<Note>, id: Seq<char>, k: int) -> Option<int>
    decreases s.len() - k,
{
    if k < 0 || k >= s.len() {
        None
    } else if s[k].id@ == id {
        Some(k)
    } else {
        find_id_from(s, id, k + 1)
    }
}

/// A found index lies at or after the start and holds a note with that identifier.
pub proof fn lemma_find_id_from_bounds(s: Seq<Note>, id: Seq<char>, k: int)
    ensures
        find_id_from(s, id, k) matches Some(p) ==> 0 <= k <= p < s.len() && s[p].id@ == id,
    decreases s.len() - k,
{
    if 0 <= k < s.len() && s[k].id@ != id {
        lemma_find_id_from_bounds(s, id, k + 1);
    }
}

/// Index of the first note with identifier `id`.
pub open spec fn find_id(s: Seq<Note>, id: Seq<char>) -> Option<int> {
    find_id_from(s, id, 0)
}

/// "New": a fresh note goes to the top, is selected and opened.
pub open spec fn after_new_note(v: SessionView, fresh: Note) -> SessionView {
    SessionView {
        notes: renumbered(seq![fresh] + v.notes),
        selected: 0,
        editing: Some(fresh.id@),
        focus_editor: true,
        dirty: true,
        ..v
    }
}

/// "Delete": the selected note leaves the list; the editor closes if it
/// showed that note.
pub open spec fn after_delete_selected(v: SessionView) -> SessionView {
    if 0 <= v.selected < v.notes.len() {
        let removed = v.notes[v.selected as int];
        let rest = v.notes.remove(v.selected as int);
        SessionView {
            notes: renumbered(rest),
            selected: clamped(v.selected, rest.len() as int),
            editing: if v.editing == Some(removed.id@) {
                None
            } else {
                v.editing
            },
            dirty: true,
            ..v
        }
    } else {
        v
    }
}

/// Closing the editor: the note being edited is dropped when its text is
/// blank (empty notes are not kept), and the editor closes. Dropping a note
/// is a change to be saved.
pub open spec fn after_close_editor(v: SessionView) -> SessionView {
    let closed = SessionView { editing: None, ..v };
    match v.editing {
        Some(id) => match find_id(v.notes, id) {
            Some(p) => if all_space(v.notes[p].task_content@, 0, v.notes[p].task_content@.len() as int) {
                let rest = v.notes.remove(p);
                SessionView {
                    notes: renumbered(rest),
                    selected: clamped(v.selected, rest.len() as int),
                    dirty: true,
                    ..closed
                }
            } else {
                closed
            },
            None => closed,
        },
        None => closed,
    }
}

/// Closing the editor saves at once, unless the user is being asked about
/// an outside change: then nothing is written before the answer.
pub open spec fn close_saves_now(v: SessionView) -> bool {
    !v.external_conflict
}

/// The notes file was read again: its notes replace the list, which now
/// matches the disk.
pub open spec fn after_reload(v: SessionView, notes: Seq<Note>, stamp: Option<i128>) -> SessionView {
    SessionView {
        notes,
        selected: clamped(v.selected, notes.len() as int),
        disk_stamp: stamp,
        dirty: false,
        ..v
    }
}

/// A click on list entry `i`.
pub open spec fn after_select(v: SessionView, i: int) -> SessionView {
    if 0 <= i < v.notes.len() {
        SessionView { selected: i as nat, ..v }
    } else {
        v
    }
}

/// A double click on list entry `i`: select it and open it.
pub open spec fn after_open_note(v: SessionView, i: int) -> SessionView {
    if 0 <= i < v.notes.len() {
        SessionView { selected: i as nat, editing: Some(v.notes[i].id@), focus_editor: true, ..v }
    } else {
        v
    }
}

/// "Open": opens the selected note, if the selection is on one.
pub open spec fn after_open_selected(v: SessionView) -> SessionView {
    if 0 <= v.selected < v.notes.len() {
        SessionView { editing: Some(v.notes[v.selected as int].id@), focus_editor: true, ..v }
    } else {
        v
    }
}

/// The text of note `pos` was edited: it gets the new text and the given
/// time of change, and the session has unsaved changes.
pub open spec fn after_edit(v: SessionView, pos: int, text: String, stamp: String) -> SessionView {
    if 0 <= pos < v.notes.len() {
        SessionView {
            notes: v.notes.update(pos, Note { task_content: text, updated_at: stamp, ..v.notes[pos] }),
            dirty: true,
            ..v
        }
    } else {
        v
    }
}

/// The notes were written; `stamp` is the notes file's stamp afterwards.
pub open spec fn after_saved(v: SessionView, stamp: Option<i128>) -> SessionView {
    SessionView { disk_stamp: stamp, dirty: false, ..v }
}

/// The user kept their changes over an outside change; the file's stamp
/// `stamp` is taken as seen.
pub open spec fn after_keep_mine(v: SessionView, stamp: Option<i128>) -> SessionView {
    SessionView { disk_stamp: stamp, external_conflict: false, ..v }
}

/// What to do after the notes file was looked at on regaining focus.
#[derive(Clone, Copy, PartialEq, Eq, Debug, Structural)]
pub enum DiskCheck {
    /// Nothing changed outside, or the change waits for the user's answer.
    Nothing,
    /// The file changed outside and nothing is unsaved: read it again.
    Reload,
}

/// The file's stamp differs from the one last seen.
pub open spec fn changed_outside(v: SessionView, disk: Option<i128>) -> bool {
    disk is Some && disk != v.disk_stamp
}

/// The stamp of the notes file was read on regaining focus.
pub open spec fn after_disk_check(v: SessionView, disk: Option<i128>) -> (SessionView, DiskCheck) {
    if changed_outside(v, disk) {
        if v.dirty {
            (SessionView { external_conflict: true, ..v }, DiskCheck::Nothing)
        } else {
            (v, DiskCheck::Reload)
        }
    } else {
        (v, DiskCheck::Nothing)
    }
}

/// What the auto-save decides.
#[derive(Clone, Copy, PartialEq, Eq, Debug, Structural)]
pub enum SaveAction {
    /// Write the notes (and settings) now.
    SaveNow,
    /// Not yet: look again after this many nanoseconds.
    WaitNanos(u128),
    /// Nothing to write, or writing waits for the user's answer.
    Idle,
}

/// Minimum time between two automatic saves, in nanoseconds (0.8 s).
pub const AUTOSAVE_DEBOUNCE_NANOS: u128 = 800_000_000;

/// The auto-save rule: always save when the window closes; otherwise save
/// unsaved changes once the debounce interval has passed since the last
/// save, unless the user is being asked about an outside change.
pub open spec fn autosave_rule(v: SessionView, close_requested: bool, elapsed_nanos: u128) -> SaveAction {
    if close_requested {
        SaveAction::SaveNow
    } else if v.dirty && !v.external_conflict {
        if elapsed_nanos >= AUTOSAVE_DEBOUNCE_NANOS {
            SaveAction::SaveNow
        } else {
            SaveAction::WaitNanos((AUTOSAVE_DEBOUNCE_NANOS - elapsed_nanos) as u128)
        }
    } else {
        SaveAction::Idle
    }
}

/// `a` and `b` are the same note, whatever their positions.
pub open spec fn same_note_but_order(a: Note, b: Note) -> bool {
    with_order(a, 0) == with_order(b, 0)
}

/// After a renumbering each note's position is its place in the list, and
/// the notes themselves are unchanged.
pub proof fn renumbered_positions_are_places(s: Seq<Note>, i: int)
    requires
        s.len() <= i64::MAX + 1,
        0 <= i < s.len(),
    ensures
        renumbered(s).len() == s.len(),
        renumbered(s)[i].manual_order == i,
        same_note_but_order(renumbered(s)[i], s[i]),
{
}

/// "Delete" removes exactly the selected note: the notes before it stay
/// where they were, the notes after it move up by one, and each keeps its
/// content.
pub proof fn delete_removes_only_the_selected_note(v: SessionView, i: int)
    requires
        0 <= v.selected < v.notes.len(),
        v.notes.len() <= i64::MAX + 1,
        0 <= i < v.notes.len() - 1,
    ensures
        after_delete_selected(v).notes.len() == v.notes.len() - 1,
        i < v.selected ==> same_note_but_order(after_delete_selected(v).notes[i], v.notes[i]),
        i >= v.selected ==> same_note_but_order(after_delete_selected(v).notes[i], v.notes[i + 1]),
{
}

/// A note created with "New" and closed without typing anything leaves no
/// trace: the list is the one from before (renumbered), and the editor is
/// closed.
pub proof fn untouched_new_note_is_discarded(v: SessionView, fresh: Note)
    requires
        is_blank_note(fresh, fresh.manual_order),
    ensures
        after_close_editor(after_new_note(v, fresh)).notes == renumbered(v.notes),
        after_close_editor(after_new_note(v, fresh)).editing is None,
{
    let w = after_new_note(v, fresh);
    assert(w.notes[0] == with_order(fresh, 0));
    assert(find_id(w.notes, fresh.id@) == Some(0int));
    assert(all_space(w.notes[0].task_content@, 0, w.notes[0].task_content@.len() as int));
    let rest = w.notes.remove(0);
    assert forall|i: int| 0 <= i < v.notes.len() implies #[trigger] renumbered(rest)[i] == renumbered(
        v.notes,
    )[i] by {
        assert(rest[i] == w.notes[i + 1]);
        assert((seq![fresh] + v.notes)[i + 1] == v.notes[i]);
    }
    assert(renumbered(rest) =~= renumbered(v.notes));
}

/// Every operation keeps the selection on a note (or at 0): it never
/// points past the end of the list.
pub proof fn operations_keep_selection_in_range(
    v: SessionView,
    fresh: Note,
    notes: Seq<Note>,
    stamp: Option<i128>,
    i: int,
    text: String,
    time: String,
)
    requires
        v.wf(),
    ensures
        after_new_note(v, fresh).wf(),
        after_delete_selected(v).wf(),
        after_close_editor(v).wf(),
        after_reload(v, notes, stamp).wf(),
        after_select(v, i).wf(),
        after_open_note(v, i).wf(),
        after_open_selected(v).wf(),
        after_edit(v, i, text, time).wf(),
        after_saved(v, stamp).wf(),
        after_disk_check(v, stamp).0.wf(),
{
}

/// While the user is being asked about an outside change, nothing is
/// written except when the window closes: neither closing the editor nor
/// auto-save saves, and the question stays open.
pub proof fn pending_conflict_defers_every_save(v: SessionView, elapsed_nanos: u128)
    requires
        v.external_conflict,
    ensures
        !close_saves_now(v),
        after_close_editor(v).external_conflict,
        autosave_rule(v, false, elapsed_nanos) == SaveAction::Idle,
        autosave_rule(after_close_editor(v), false, elapsed_nanos) == SaveAction::Idle,
{
}

/// An outside change of the notes file never silently replaces unsaved
/// changes: when the window regains focus with unsaved changes and the
/// file has changed, nothing is reloaded, the user is asked, and until
/// then auto-save writes nothing (except when the window closes).
pub proof fn outside_change_with_unsaved_edits_waits_for_user(
    v: SessionView,
    disk: Option<i128>,
    elapsed_nanos: u128,
)
    requires
        v.dirty,
        changed_outside(v, disk),
    ensures
        after_disk_check(v, disk).1 == DiskCheck::Nothing,
        after_disk_check(v, disk).0.external_conflict,
        after_disk_check(v, disk).0.notes == v.notes,
        autosave_rule(after_disk_check(v, disk).0, false, elapsed_nanos) == SaveAction::Idle,
{
}

/// With nothing unsaved, an outside change of the notes file is reloaded.
pub proof fn outside_change_without_edits_reloads(v: SessionView, disk: Option<i128>)
    requires
        !v.dirty,
        changed_outside(v, disk),
    ensures
        after_disk_check(v, disk) == (v, DiskCheck::Reload),
{
}

/// Auto-save never writes twice within the debounce interval: before it
/// has passed it waits exactly the rest of the interval.
pub proof fn autosave_waits_out_the_debounce(v: SessionView, elapsed_nanos: u128)
    requires
        v.dirty,
        !v.external_conflict,
        elapsed_nanos < AUTOSAVE_DEBOUNCE_NANOS,
    ensures
        autosave_rule(v, false, elapsed_nanos) matches SaveAction::WaitNanos(w) && w
            + elapsed_nanos == AUTOSAVE_DEBOUNCE_NANOS,
{
}

/// After a save there is nothing left for auto-save to write, and the
/// file's new stamp is not taken for an outside change.
pub proof fn saved_session_is_quiet(v: SessionView, stamp: Option<i128>, elapsed_nanos: u128)
    ensures
        autosave_rule(after_saved(v, stamp), false, elapsed_nanos) == SaveAction::Idle,
        !changed_outside(after_saved(v, stamp), stamp),
{
}

/// Once the user kept their changes, the same outside change is not asked
/// about again, and auto-save may write again.
pub proof fn kept_change_is_not_asked_again(v: SessionView, disk: Option<i128>, elapsed_nanos: u128)
    requires
        v.dirty,
    ensures
        after_disk_check(after_keep_mine(v, disk), disk) == (after_keep_mine(v, disk), DiskCheck::Nothing),
        elapsed_nanos >= AUTOSAVE_DEBOUNCE_NANOS ==> autosave_rule(after_keep_mine(v, disk), false, elapsed_nanos)
            == SaveAction::SaveNow,
{
}

/// The first note with identifier `id` is found at its index.
pub proof fn lemma_find_id_first(s: Seq<Note>, id: Seq<char>, k: int, p: int)
    requires
        0 <= k <= p < s.len(),
        s[p].id@ == id,
        forall|q: int| k <= q < p ==> s[q].id@ != id,
    ensures
        find_id_from(s, id, k) == Some(p),
    decreases p - k,
{
    if k < p {
        lemma_find_id_first(s, id, k + 1, p);
    }
}

/// When no note has identifier `id`, none is found.
pub proof fn lemma_find_id_absent(s: Seq<Note>, id: Seq<char>, k: int)
    requires
        0 <= k,
        forall|q: int| k <= q < s.len() ==> s[q].id@ != id,
    ensures
        find_id_from(s, id, k) is None,
    decreases s.len() - k,
{
    if k < s.len() {
        lemma_find_id_absent(s, id, k + 1);
    }
}

/// Closing the editor drops the note open in it, the first note whose
/// identifier is the editor's, exactly when that note's text is all
/// whitespace, whichever list entry is selected: the notes before it keep
/// their places, the notes after it move up by one, each keeps its
/// content, and (identifiers being unique) no note with that identifier
/// remains. The editor is closed afterwards.
pub proof fn close_editor_drops_the_open_note_when_blank(v: SessionView, id: Seq<char>, p: int, i: int)
    requires
        v.editing == Some(id),
        0 <= p < v.notes.len(),
        v.notes.len() <= i64::MAX + 1,
        v.notes[p].id@ == id,
        forall|q: int| 0 <= q < p ==> v.notes[q].id@ != id,
        forall|k: int| 0 <= k < v.notes[p].task_content@.len() ==> is_space(v.notes[p].task_content@[k]),
    ensures
        after_close_editor(v).notes.len() == v.notes.len() - 1,
        0 <= i < p ==> same_note_but_order(after_close_editor(v).notes[i], v.notes[i]),
        p <= i < v.notes.len() - 1 ==> same_note_but_order(after_close_editor(v).notes[i], v.notes[i + 1]),
        (forall|a: int, b: int| 0 <= a < b < v.notes.len() ==> v.notes[a].id@ != v.notes[b].id@)
            ==> (forall|k: int| 0 <= k < after_close_editor(v).notes.len() ==> #[trigger] after_close_editor(v).notes[k].id@ != id),
        after_close_editor(v).editing is None,
{
    lemma_find_id_first(v.notes, id, 0, p);
    let w = after_close_editor(v);
    assert(w.notes == renumbered(v.notes.remove(p)));
    if forall|a: int, b: int| 0 <= a < b < v.notes.len() ==> v.notes[a].id@ != v.notes[b].id@ {
        assert forall|k: int| 0 <= k < w.notes.len() implies #[trigger] w.notes[k].id@ != id by {
            if k < p {
                assert(w.notes[k].id == v.notes[k].id);
            } else {
                assert(w.notes[k].id == v.notes[k + 1].id);
            }
        }
    }
}

/// Closing the editor keeps the note open in it when its text has a
/// non-whitespace character, and keeps every note when no note has the
/// editor's identifier; only the editor closes.
pub proof fn close_editor_keeps_written_notes(v: SessionView, id: Seq<char>, p: int, k: int)
    requires
        v.editing == Some(id),
        0 <= p < v.notes.len(),
        v.notes[p].id@ == id,
        forall|q: int| 0 <= q < p ==> v.notes[q].id@ != id,
        0 <= k < v.notes[p].task_content@.len(),
        !is_space(v.notes[p].task_content@[k]),
    ensures
        after_close_editor(v).notes == v.notes,
        after_close_editor(v).selected == v.selected,
        after_close_editor(v).dirty == v.dirty,
        after_close_editor(v).editing is None,
{
    lemma_find_id_first(v.notes, id, 0, p);
}

/// Closing an editor whose note has left the list changes no note.
pub proof fn close_editor_without_its_note_keeps_all(v: SessionView, id: Seq<char>)
    requires
        v.editing == Some(id),
        forall|q: int| 0 <= q < v.notes.len() ==> v.notes[q].id@ != id,
    ensures
        after_close_editor(v).notes == v.notes,
        after_close_editor(v).selected == v.selected,
        after_close_editor(v).editing is None,
{
    lemma_find_id_absent(v.notes, id, 0);
}

/// Regaining focus: a present stamp of the notes file that differs from the
/// one last seen (including when none was seen, the file having appeared
/// since) is an outside change; with nothing unsaved it is read in, and
/// the session is left as it was until then.
pub proof fn new_stamp_without_edits_is_read_in(v: SessionView, d: i128)
    requires
        !v.dirty,
        v.disk_stamp != Some(d),
    ensures
        after_disk_check(v, Some(d)) == (v, DiskCheck::Reload),
{
}

/// With unsaved edits a new stamp (also a first one) asks the user instead.
pub proof fn new_stamp_with_edits_asks(v: SessionView, d: i128)
    requires
        v.dirty,
        v.disk_stamp != Some(d),
    ensures
        after_disk_check(v, Some(d)).1 == DiskCheck::Nothing,
        after_disk_check(v, Some(d)).0 == (SessionView { external_conflict: true, ..v }),
{
}

/// No stamp (the file is gone or unreadable) or the stamp last seen is no
/// outside change: nothing happens.
pub proof fn same_or_missing_stamp_is_no_change(v: SessionView, disk: Option<i128>)
    requires
        disk is None || disk == v.disk_stamp,
    ensures
        after_disk_check(v, disk) == (v, DiskCheck::Nothing),
{
}

/// After "Delete" the selection stays where it was while that is still a
/// note; when it falls past the end of the shorter list it moves to the
/// new last note, or to 0 when the list is empty.
pub proof fn delete_moves_selection_to_last_when_past_end(v: SessionView)
    requires
        0 <= v.selected < v.notes.len(),
    ensures
        ({
            let n = v.notes.len() - 1;
            let sel = after_delete_selected(v).selected;
            &&& after_delete_selected(v).notes.len() == n
            &&& v.selected < n ==> sel == v.selected
            &&& v.selected >= n && n > 0 ==> sel == n - 1
            &&& n == 0 ==> sel == 0
        }),
{
}

/// Deleting with the selection past the list changes nothing.
pub proof fn delete_without_selection_changes_nothing(v: SessionView)
    requires
        v.selected >= v.notes.len(),
    ensures
        after_delete_selected(v) == v,
{
}

/// Reading the file again keeps the selection while it is on a note and
/// otherwise moves it to the last note (or 0).
pub proof fn reload_moves_selection_to_last_when_past_end(v: SessionView, notes: Seq<Note>, stamp: Option<i128>)
    ensures
        v.selected < notes.len() ==> after_reload(v, notes, stamp).selected == v.selected,
        v.selected >= notes.len() && notes.len() > 0 ==> after_reload(v, notes, stamp).selected == notes.len() - 1,
        notes.len() == 0 ==> after_reload(v, notes, stamp).selected == 0,
        after_reload(v, notes, stamp).notes == notes,
        after_reload(v, notes, stamp).disk_stamp == stamp,
        !after_reload(v, notes, stamp).dirty,
{
}

/// When the window closes everything is written, whatever is unsaved or
/// pending: the notes and the settings with the window's geometry.
pub proof fn closing_window_always_saves(v: SessionView, elapsed_nanos: u128)
    ensures
        autosave_rule(v, true, elapsed_nanos) == SaveAction::SaveNow,
{
}

/// Without closing, nothing unsaved means nothing to write.
pub proof fn nothing_unsaved_nothing_written(v: SessionView, elapsed_nanos: u128)
    requires
        !v.dirty,
    ensures
        autosave_rule(v, false, elapsed_nanos) == SaveAction::Idle,
{
}


/// An editing session: the notes in list order and the window's state.
pub struct Session {
    notes: Vec<Note>,
    selected: usize,
    editing: Option<String>,
    focus_editor: bool,
    dirty: bool,
    disk_stamp: Option<i128>,
    was_focused: bool,
    external_conflict: bool,
}

impl View for Session {
    type V = SessionView;

    closed spec fn view(&self) -> SessionView {
        SessionView {
            notes: self.notes@,
            selected: self.selected as nat,
            editing: match self.editing {
                Some(s) => Some(s@),
                None => None,
            },
            focus_editor: self.focus_editor,
            dirty: self.dirty,
            disk_stamp: self.disk_stamp,
            was_focused: self.was_focused,
            external_conflict: self.external_conflict,
        }
    }
}

impl Session {
    /// A session over the notes just loaded, with the notes file's stamp.
    pub fn new(notes: Vec<Note>, disk_stamp: Option<i128>) -> (r: Session)
        ensures
            r@ == (SessionView {
                notes: notes@,
                selected: 0,
                editing: None,
                focus_editor: false,
                dirty: false,
                disk_stamp,
                was_focused: false,
                external_conflict: false,
            }),
    {
        Session {
            notes,
            selected: 0,
            editing: None,
            focus_editor: false,
            dirty: false,
            disk_stamp,
            was_focused: false,
            external_conflict: false,
        }
    }

    /// Renumbers the notes `0, 1, 2, ...` in list order.
    fn renumber(&mut self)
        requires
            old(self)@.notes.len() <= i64::MAX + 1,
        ensures
            final(self)@ == (SessionView { notes: renumbered(old(self)@.notes), ..old(self)@ }),
    {
        let n = self.notes.len();
        let mut i: usize = 0;
        while i < n
            invariant
                n == self.notes@.len(),
                n == old(self)@.notes.len(),
                n <= i64::MAX + 1,
                i <= n,
                forall|k: int| 0 <= k < i ==> self.notes@[k] == with_order(old(self)@.notes[k], k),
                forall|k: int| i <= k < n ==> self.notes@[k] == old(self)@.notes[k],
                self.selected == old(self).selected,
                self.editing == old(self).editing,
                self.focus_editor == old(self).focus_editor,
                self.dirty == old(self).dirty,
                self.disk_stamp == old(self).disk_stamp,
                self.was_focused == old(self).was_focused,
                self.external_conflict == old(self).external_conflict,
            decreases n - i,
        {
            self.notes[i].manual_order = i as i64;
            i = i + 1;
        }
        assert(self.notes@ =~= renumbered(old(self)@.notes));
    }

    /// "New": creates a blank note at the top of the list, selects it and
    /// opens it in the editor.
    pub fn new_note(&mut self)
        requires
            old(self)@.notes.len() < i64::MAX,
        ensures
            final(self)@ == after_new_note(old(self)@, final(self)@.notes[0]),
            final(self)@.notes.len() == old(self)@.notes.len() + 1,
            is_blank_note(final(self)@.notes[0], 0),
            is_uuid_v4_text(final(self)@.notes[0].id@),
            is_utc_rfc3339_text(final(self)@.notes[0].updated_at@),
    {
        let order = self.notes.len() as i64;
        let note = Note::new(order);
        let ghost fresh = note;
        let id = note.id.clone();
        self.notes.insert(0, note);
        self.selected = 0;
        self.renumber();
        self.editing = Some(id);
        self.focus_editor = true;
        self.dirty = true;
        proof {
            assert(old(self)@.notes.insert(0, fresh) =~= seq![fresh] + old(self)@.notes);
            assert(self@.notes[0] == with_order(fresh, 0));
            assert(after_new_note(old(self)@, self@.notes[0]).notes =~= self@.notes);
        }
    }

    /// "Delete": removes the selected note, if the selection is on one.
    pub fn delete_selected(&mut self)
        requires
            old(self)@.notes.len() <= i64::MAX + 1,
        ensures
            final(self)@ == after_delete_selected(old(self)@),
    {
        if self.selected < self.notes.len() {
            let removed_id = self.notes[self.selected].id.clone();
            self.notes.remove(self.selected);
            self.renumber();
            if self.selected >= self.notes.len() {
                self.selected = self.notes.len().saturating_sub(1);
            }
            let same = match &self.editing {
                Some(e) => *e == removed_id,
                None => false,
            };
            if same {
                self.editing = None;
            }
            self.dirty = true;
        }
    }

    /// Index of the first note with identifier `id`.
    fn position_of(&self, id: &String) -> (r: Option<usize>)
        ensures
            match r {
                Some(p) => find_id(self@.notes, id@) == Some(p as int) && p < self@.notes.len(),
                None => find_id(self@.notes, id@) is None,
            },
    {
        proof {
            lemma_find_id_from_bounds(self@.notes, id@, 0);
        }
        let n = self.notes.len();
        let mut i: usize = 0;
        while i < n
            invariant
                n == self@.notes.len(),
                i <= n,
                find_id(self@.notes, id@) == find_id_from(self@.notes, id@, i as int),
            decreases n - i,
        {
            if self.notes[i].id == *id {
                return Some(i);
            }
            i = i + 1;
        }
        None
    }

    /// Where the editor's note stands in the list. When the editor shows a
    /// note that is no longer in the list, the editor closes.
    pub fn locate_editor(&mut self) -> (r: Option<usize>)
        ensures
            match old(self)@.editing {
                Some(id) => match find_id(old(self)@.notes, id) {
                    Some(p) => r == Some(p as usize) && final(self)@ == old(self)@,
                    None => r is None && final(self)@ == (SessionView { editing: None, ..old(self)@ }),
                },
                None => r is None && final(self)@ == old(self)@,
            },
    {
        let found = match &self.editing {
            Some(id) => Some(self.position_of(id)),
            None => None,
        };
        match found {
            Some(Some(p)) => Some(p),
            Some(None) => {
                self.editing = None;
                None
            },
            None => None,
        }
    }

    /// Closes the editor; the note it showed is dropped when its text is
    /// blank. Tells whether the notes are to be saved now.
    pub fn close_editor(&mut self) -> (save_now: bool)
        requires
            old(self)@.notes.len() <= i64::MAX + 1,
        ensures
            final(self)@ == after_close_editor(old(self)@),
            save_now == close_saves_now(old(self)@),
    {
        let found = match &self.editing {
            Some(id) => self.position_of(id),
            None => None,
        };
        if let Some(p) = found {
            if is_blank(self.notes[p].task_content.as_str()) {
                self.notes.remove(p);
                self.renumber();
                if self.selected >= self.notes.len() {
                    self.selected = self.notes.len().saturating_sub(1);
                }
                self.dirty = true;
            }
        }
        self.editing = None;
        !self.external_conflict
    }

    /// Replaces the list with the notes read from disk, whose file now has
    /// the stamp `stamp`.
    pub fn reload_from_disk(&mut self, notes: Vec<Note>, stamp: Option<i128>)
        ensures
            final(self)@ == after_reload(old(self)@, notes@, stamp),
    {
        self.notes = notes;
        if self.selected >= self.notes.len() {
            self.selected = self.notes.len().saturating_sub(1);
        }
        self.disk_stamp = stamp;
        self.dirty = false;
    }

    /// A click on list entry `i`.
    pub fn select(&mut self, i: usize)
        ensures
            final(self)@ == after_select(old(self)@, i as int),
    {
        if i < self.notes.len() {
            self.selected = i;
        }
    }

    /// A double click on list entry `i`.
    pub fn open_note(&mut self, i: usize)
        ensures
            final(self)@ == after_open_note(old(self)@, i as int),
    {
        if i < self.notes.len() {
            self.selected = i;
            self.editing = Some(self.notes[i].id.clone());
            self.focus_editor = true;
        }
    }

    /// "Open": opens the selected note in the editor.
    pub fn open_selected(&mut self)
        ensures
            final(self)@ == after_open_selected(old(self)@),
    {
        if self.selected < self.notes.len() {
            self.editing = Some(self.notes[self.selected].id.clone());
            self.focus_editor = true;
        }
    }

    /// The editor changed the text of note `pos`.
    pub fn edit_content(&mut self, pos: usize, text: String)
        ensures
            pos < old(self)@.notes.len() ==> final(self)@ == after_edit(
                old(self)@,
                pos as int,
                text,
                final(self)@.notes[pos as int].updated_at,
            ),
            pos < old(self)@.notes.len() ==> is_utc_rfc3339_text(
                final(self)@.notes[pos as int].updated_at@,
            ),
            pos >= old(self)@.notes.len() ==> final(self)@ == old(self)@,
    {
        if pos < self.notes.len() {
            self.notes[pos].task_content = text;
            self.notes[pos].touch();
            self.dirty = true;
            proof {
                assert(self@.notes =~= after_edit(
                    old(self)@,
                    pos as int,
                    text,
                    self@.notes[pos as int].updated_at,
                ).notes);
            }
        }
    }

    /// Whether the editor's text field should take the focus now; asking
    /// consumes the request.
    pub fn take_focus_request(&mut self) -> (r: bool)
        ensures
            r == old(self)@.focus_editor,
            final(self)@ == (SessionView { focus_editor: false, ..old(self)@ }),
    {
        let r = self.focus_editor;
        self.focus_editor = false;
        r
    }

    /// A setting changed: there is something to save.
    pub fn mark_dirty(&mut self)
        ensures
            final(self)@ == (SessionView { dirty: true, ..old(self)@ }),
    {
        self.dirty = true;
    }

    /// The notes were written; the notes file now has the stamp `stamp`.
    pub fn mark_saved(&mut self, stamp: Option<i128>)
        ensures
            final(self)@ == after_saved(old(self)@, stamp),
    {
        self.disk_stamp = stamp;
        self.dirty = false;
    }

    /// Records the window's focus for this frame; true when the window has
    /// just regained it, which is when the notes file is to be looked at.
    pub fn observe_focus(&mut self, focused: bool) -> (check_disk: bool)
        ensures
            check_disk == (focused && !old(self)@.was_focused),
            final(self)@ == (SessionView { was_focused: focused, ..old(self)@ }),
    {
        let check = focused && !self.was_focused;
        self.was_focused = focused;
        check
    }

    /// The notes file's current stamp, read on regaining focus.
    pub fn disk_checked(&mut self, disk: Option<i128>) -> (r: DiskCheck)
        ensures
            (final(self)@, r) == after_disk_check(old(self)@, disk),
    {
        let changed = match disk {
            Some(d) => match self.disk_stamp {
                Some(s) => d != s,
                None => true,
            },
            None => false,
        };
        if changed {
            if self.dirty {
                self.external_conflict = true;
                DiskCheck::Nothing
            } else {
                DiskCheck::Reload
            }
        } else {
            DiskCheck::Nothing
        }
    }

    /// The user chose to keep their changes over the outside ones; the
    /// outside change (stamp `stamp`) is not asked about again.
    pub fn keep_mine(&mut self, stamp: Option<i128>)
        ensures
            final(self)@ == after_keep_mine(old(self)@, stamp),
    {
        self.disk_stamp = stamp;
        self.external_conflict = false;
    }

    /// The user chose the outside version: the notes read from disk replace
    /// the list and the editor closes.
    pub fn take_theirs(&mut self, notes: Vec<Note>, stamp: Option<i128>)
        ensures
            final(self)@ == (SessionView {
                editing: None,
                external_conflict: false,
                ..after_reload(old(self)@, notes@, stamp)
            }),
    {
        self.reload_from_disk(notes, stamp);
        self.editing = None;
        self.external_conflict = false;
    }

    /// The auto-save decision for this frame, `elapsed_nanos` after the last save.
    pub fn autosave_action(&self, close_requested: bool, elapsed_nanos: u128) -> (r: SaveAction)
        ensures
            r == autosave_rule(self@, close_requested, elapsed_nanos),
    {
        if close_requested {
            SaveAction::SaveNow
        } else if self.dirty && !self.external_conflict {
            if elapsed_nanos >= AUTOSAVE_DEBOUNCE_NANOS {
                SaveAction::SaveNow
            } else {
                SaveAction::WaitNanos(AUTOSAVE_DEBOUNCE_NANOS - elapsed_nanos)
            }
        } else {
            SaveAction::Idle
        }
    }

    /// The notes, in list order.
    pub fn notes(&self) -> (r: &Vec<Note>)
        ensures
            r@ == self@.notes,
    {
        &self.notes
    }

    /// The selected list entry.
    pub fn selected(&self) -> (r: usize)
        ensures
            r == self@.selected,
    {
        self.selected
    }

    /// Identifier of the note open in the editor.
    pub fn editing(&self) -> (r: Option<&String>)
        ensures
            match r {
                Some(s) => self@.editing == Some(s@),
                None => self@.editing is None,
            },
    {
        self.editing.as_ref()
    }

    /// Whether there are unsaved changes.
    pub fn is_dirty(&self) -> (r: bool)
        ensures
            r == self@.dirty,
    {
        self.dirty
    }

    /// Whether the user is being asked about an outside change.
    pub fn has_conflict(&self) -> (r: bool)
        ensures
            r == self@.external_conflict,
    {
        self.external_conflict
    }
}


} // verus!
