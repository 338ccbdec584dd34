use simplenote::model::Note;
use simplenote::storage::{
    after_backup, after_notes_read, backup_file_name, corrupt_file_name, next_save_step,
    notes_file_name, settings_file_name, temp_file_name, LoadStep, NotesRead, SaveStep,
};

fn notes(n: usize) -> Vec<Note> {
    (0..n).map(|i| Note::new(i as i64)).collect()
}

#[test]
fn file_names() {
    assert_eq!(notes_file_name(), "notes.json");
    assert_eq!(backup_file_name(), "notes.backup.json");
    assert_eq!(settings_file_name(), "settings.json");
    assert_eq!(temp_file_name(), "notes.json.tmp");
    assert_eq!(corrupt_file_name(), "notes.corrupt.json");
}

#[test]
fn missing_file_loads_empty() {
    match after_notes_read(NotesRead::Missing) {
        LoadStep::Done(l) => {
            assert!(l.notes.is_empty());
            assert!(l.message.is_none());
            assert!(!l.keep_damaged_copy);
        }
        LoadStep::ReadBackup(_) => panic!("backup read for a missing file"),
    }
}

#[test]
fn valid_file_loads_its_notes() {
    let v = notes(3);
    let ids: Vec<String> = v.iter().map(|n| n.id.clone()).collect();
    match after_notes_read(NotesRead::Parsed(v)) {
        LoadStep::Done(l) => {
            assert_eq!(l.notes.iter().map(|n| n.id.clone()).collect::<Vec<_>>(), ids);
            assert!(l.message.is_none());
        }
        LoadStep::ReadBackup(_) => panic!("backup read for a valid file"),
    }
}

#[test]
fn damaged_file_goes_to_backup() {
    match after_notes_read(NotesRead::Damaged("expected value".to_string())) {
        LoadStep::ReadBackup(e) => assert_eq!(e, "expected value"),
        LoadStep::Done(_) => panic!("damaged file accepted"),
    }
}

#[test]
fn non_text_file_goes_to_backup() {
    match after_notes_read(NotesRead::NotText("invalid utf-8 sequence".to_string())) {
        LoadStep::ReadBackup(e) => assert_eq!(e, "invalid utf-8 sequence"),
        LoadStep::Done(_) => panic!("non-text file accepted"),
    }
}

#[test]
fn damaged_notes_file_is_not_backed_up() {
    assert_eq!(
        run(&[true, true, false, true]),
        vec![
            SaveStep::Serialize,
            SaveStep::WriteTemp,
            SaveStep::CheckNotesFile,
            SaveStep::ReplaceNotesFile,
            SaveStep::Finished
        ]
    );
}

#[test]
fn backup_restores_notes() {
    let v = notes(2);
    let first = v[0].id.clone();
    let l = after_backup("bad".to_string(), Some(v));
    assert_eq!(l.notes.len(), 2);
    assert_eq!(l.notes[0].id, first);
    assert_eq!(
        l.message.as_deref(),
        Some("notes.json が破損していたためバックアップから復元しました。")
    );
    assert!(l.keep_damaged_copy);
}

#[test]
fn unusable_backup_starts_empty_with_reason() {
    let l = after_backup("EOF while parsing".to_string(), None);
    assert!(l.notes.is_empty());
    assert_eq!(
        l.message.as_deref(),
        Some("notes.json を読み込めませんでした（新規作成します）: EOF while parsing")
    );
    assert!(!l.keep_damaged_copy);
}

fn run(outcomes: &[bool]) -> Vec<SaveStep> {
    let mut steps = vec![SaveStep::Serialize];
    for &ok in outcomes {
        let next = next_save_step(*steps.last().unwrap(), ok);
        steps.push(next);
    }
    steps
}

#[test]
fn save_with_existing_file_backs_it_up() {
    assert_eq!(
        run(&[true, true, true, true, true]),
        vec![
            SaveStep::Serialize,
            SaveStep::WriteTemp,
            SaveStep::CheckNotesFile,
            SaveStep::BackupPrevious,
            SaveStep::ReplaceNotesFile,
            SaveStep::Finished
        ]
    );
}

#[test]
fn first_save_has_nothing_to_back_up() {
    assert_eq!(
        run(&[true, true, false, true]),
        vec![
            SaveStep::Serialize,
            SaveStep::WriteTemp,
            SaveStep::CheckNotesFile,
            SaveStep::ReplaceNotesFile,
            SaveStep::Finished
        ]
    );
}

#[test]
fn failed_temp_write_touches_nothing() {
    assert_eq!(
        run(&[true, false, true, true]),
        vec![
            SaveStep::Serialize,
            SaveStep::WriteTemp,
            SaveStep::Finished,
            SaveStep::Finished,
            SaveStep::Finished
        ]
    );
    assert_eq!(run(&[false]), vec![SaveStep::Serialize, SaveStep::Finished]);
}

#[test]
fn ignored_outcomes_of_late_steps() {
    assert_eq!(next_save_step(SaveStep::BackupPrevious, false), SaveStep::ReplaceNotesFile);
    assert_eq!(next_save_step(SaveStep::ReplaceNotesFile, false), SaveStep::Finished);
    assert_eq!(next_save_step(SaveStep::Finished, true), SaveStep::Finished);
}
