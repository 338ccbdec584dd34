use simplenote::model::Note;
use simplenote::session::{DiskCheck, SaveAction, Session, AUTOSAVE_DEBOUNCE_NANOS};

fn note(text: &str, order: i64) -> Note {
    let mut n = Note::new(order);
    n.task_content = text.to_string();
    n
}

fn session(texts: &[&str]) -> Session {
    let v = texts.iter().enumerate().map(|(i, t)| note(t, i as i64 * 10)).collect();
    Session::new(v, Some(100))
}

fn contents(s: &Session) -> Vec<String> {
    s.notes().iter().map(|n| n.task_content.clone()).collect()
}

fn orders(s: &Session) -> Vec<i64> {
    s.notes().iter().map(|n| n.manual_order).collect()
}

#[test]
fn new_session_state() {
    let s = session(&["a", "b"]);
    assert_eq!(s.selected(), 0);
    assert!(s.editing().is_none());
    assert!(!s.is_dirty());
    assert!(!s.has_conflict());
    assert_eq!(orders(&s), vec![0, 10]);
}

#[test]
fn new_note_goes_on_top_and_opens() {
    let mut s = session(&["a", "b"]);
    s.select(1);
    s.new_note();
    assert_eq!(contents(&s), vec!["", "a", "b"]);
    assert_eq!(orders(&s), vec![0, 1, 2]);
    assert_eq!(s.selected(), 0);
    assert_eq!(s.editing(), Some(&s.notes()[0].id));
    assert!(s.is_dirty());
    assert!(s.take_focus_request());
    assert!(!s.take_focus_request());
}

#[test]
fn untouched_new_note_is_dropped_on_close() {
    let mut s = session(&["a", "b"]);
    s.new_note();
    assert!(s.close_editor());
    assert_eq!(contents(&s), vec!["a", "b"]);
    assert_eq!(orders(&s), vec![0, 1]);
    assert!(s.editing().is_none());
}

#[test]
fn whitespace_note_is_dropped_on_close() {
    let mut s = session(&["a"]);
    s.new_note();
    s.edit_content(0, " \n\t\u{3000}".to_string());
    s.close_editor();
    assert_eq!(contents(&s), vec!["a"]);
}

#[test]
fn written_note_is_kept_on_close() {
    let mut s = session(&["a"]);
    s.new_note();
    s.edit_content(0, "memo".to_string());
    assert_eq!(s.notes()[0].title(), "memo");
    s.close_editor();
    assert_eq!(contents(&s), vec!["memo", "a"]);
    assert!(s.editing().is_none());
}

#[test]
fn edit_touches_note_and_marks_dirty() {
    let mut old = note("b", 1);
    old.updated_at = "2000-01-01T00:00:00+00:00".to_string();
    let mut s = Session::new(vec![note("a", 0), old], None);
    s.edit_content(1, "changed".to_string());
    assert_eq!(contents(&s), vec!["a", "changed"]);
    assert!(s.is_dirty());
    assert_ne!(s.notes()[1].updated_at, "2000-01-01T00:00:00+00:00");
    assert_eq!(s.notes()[1].manual_order, 1);
    let mut t = session(&["a"]);
    t.edit_content(5, "x".to_string());
    assert_eq!(contents(&t), vec!["a"]);
    assert!(!t.is_dirty());
}

#[test]
fn delete_selected_note() {
    let mut s = session(&["a", "b", "c"]);
    s.select(1);
    s.delete_selected();
    assert_eq!(contents(&s), vec!["a", "c"]);
    assert_eq!(orders(&s), vec![0, 1]);
    assert_eq!(s.selected(), 1);
    assert!(s.is_dirty());
}

#[test]
fn delete_last_moves_selection_up() {
    let mut s = session(&["a", "b"]);
    s.select(1);
    s.delete_selected();
    assert_eq!(s.selected(), 0);
    s.delete_selected();
    assert!(s.notes().is_empty());
    assert_eq!(s.selected(), 0);
    s.delete_selected();
    assert!(s.notes().is_empty());
}

#[test]
fn delete_closes_editor_of_deleted_note() {
    let mut s = session(&["a", "b"]);
    s.open_note(1);
    assert_eq!(s.selected(), 1);
    s.delete_selected();
    assert!(s.editing().is_none());
    let mut t = session(&["a", "b"]);
    t.open_note(0);
    t.select(1);
    t.delete_selected();
    assert_eq!(t.editing(), Some(&t.notes()[0].id));
}

#[test]
fn open_selected_and_locate() {
    let mut s = session(&["a", "b"]);
    s.select(1);
    s.open_selected();
    assert_eq!(s.locate_editor(), Some(1));
    s.select(7);
    assert_eq!(s.selected(), 1);
    let mut e = session(&[]);
    e.open_selected();
    assert!(e.editing().is_none());
    assert_eq!(e.locate_editor(), None);
}

#[test]
fn locate_editor_closes_vanished_note() {
    let mut s = session(&["a", "b"]);
    s.open_note(1);
    s.reload_from_disk(vec![note("x", 0)], Some(200));
    assert_eq!(s.locate_editor(), None);
    assert!(s.editing().is_none());
}

#[test]
fn reload_clamps_selection_and_clears_dirty() {
    let mut s = session(&["a", "b", "c"]);
    s.select(2);
    s.mark_dirty();
    s.reload_from_disk(vec![note("x", 0)], Some(200));
    assert_eq!(contents(&s), vec!["x"]);
    assert_eq!(s.selected(), 0);
    assert!(!s.is_dirty());
    assert_eq!(s.disk_checked(Some(200)), DiskCheck::Nothing);
}

#[test]
fn focus_regain_checks_disk_once() {
    let mut s = session(&["a"]);
    assert!(s.observe_focus(true));
    assert!(!s.observe_focus(true));
    assert!(!s.observe_focus(false));
    assert!(s.observe_focus(true));
}

#[test]
fn outside_change_without_edits_reloads() {
    let mut s = session(&["a"]);
    assert_eq!(s.disk_checked(Some(100)), DiskCheck::Nothing);
    assert_eq!(s.disk_checked(None), DiskCheck::Nothing);
    assert_eq!(s.disk_checked(Some(101)), DiskCheck::Reload);
    assert!(!s.has_conflict());
}

#[test]
fn outside_change_with_edits_asks_user() {
    let mut s = session(&["a"]);
    s.edit_content(0, "mine".to_string());
    assert_eq!(s.disk_checked(Some(101)), DiskCheck::Nothing);
    assert!(s.has_conflict());
    assert_eq!(contents(&s), vec!["mine"]);
    assert_eq!(s.autosave_action(false, 5_000_000_000), SaveAction::Idle);
    assert_eq!(s.autosave_action(true, 0), SaveAction::SaveNow);
}

#[test]
fn closing_editor_during_conflict_does_not_save() {
    let mut s = session(&["a"]);
    s.new_note();
    s.mark_saved(Some(100));
    s.edit_content(1, "mine".to_string());
    assert_eq!(s.disk_checked(Some(101)), DiskCheck::Nothing);
    assert!(s.has_conflict());
    assert!(!s.close_editor());
    assert_eq!(contents(&s), vec!["mine"]);
    assert!(s.is_dirty());
    assert!(s.has_conflict());
    assert_eq!(s.autosave_action(false, 5_000_000_000), SaveAction::Idle);
}

#[test]
fn edit_sets_utc_timestamp() {
    let mut s = session(&["a"]);
    s.edit_content(0, "b".to_string());
    assert!(s.notes()[0].updated_at.ends_with("+00:00"));
}

#[test]
fn keep_mine_resolves_conflict() {
    let mut s = session(&["a"]);
    s.edit_content(0, "mine".to_string());
    s.disk_checked(Some(101));
    s.keep_mine(Some(101));
    assert!(!s.has_conflict());
    assert!(s.is_dirty());
    assert_eq!(s.disk_checked(Some(101)), DiskCheck::Nothing);
    assert_eq!(s.autosave_action(false, AUTOSAVE_DEBOUNCE_NANOS), SaveAction::SaveNow);
}

#[test]
fn take_theirs_replaces_notes() {
    let mut s = session(&["a"]);
    s.open_note(0);
    s.edit_content(0, "mine".to_string());
    s.disk_checked(Some(101));
    s.take_theirs(vec![note("theirs", 0), note("more", 1)], Some(101));
    assert_eq!(contents(&s), vec!["theirs", "more"]);
    assert!(!s.has_conflict());
    assert!(!s.is_dirty());
    assert!(s.editing().is_none());
}

#[test]
fn autosave_debounce() {
    let mut s = session(&["a"]);
    assert_eq!(s.autosave_action(false, 0), SaveAction::Idle);
    s.mark_dirty();
    assert_eq!(s.autosave_action(false, 300_000_000), SaveAction::WaitNanos(500_000_000));
    assert_eq!(s.autosave_action(false, 800_000_000), SaveAction::SaveNow);
    s.mark_saved(Some(300));
    assert_eq!(s.autosave_action(false, 900_000_000), SaveAction::Idle);
    assert_eq!(s.disk_checked(Some(300)), DiskCheck::Nothing);
}
