use chrono::{DateTime, Local};
use simplenote::model::{default_priority, Note, Priority, TITLE_MAX_CHARS};
use simplenote::stamp::{fmt_updated, format_local_minute, updated_label, LocalMinute};

fn note_with(text: &str) -> Note {
    let mut n = Note::new(0);
    n.task_content = text.to_string();
    n
}

#[test]
fn title_is_first_line() {
    assert_eq!(note_with("買い物リスト\n牛乳").title(), "買い物リスト");
}

#[test]
fn title_skips_blank_lines_and_trims() {
    assert_eq!(note_with("\n   \n\t  会議メモ  \r\n次").title(), "会議メモ");
    assert_eq!(note_with("\u{3000}全角空白\u{3000}").title(), "全角空白");
}

#[test]
fn title_of_blank_note_is_untitled() {
    assert_eq!(note_with("").title(), "(無題)");
    assert_eq!(note_with("  \n\t\n\r\n ").title(), "(無題)");
}

#[test]
fn title_is_cut_to_limit() {
    let long = "あいうえおかきくけこさしすせそたちつてとなにぬねのはひふへほ";
    let t = note_with(long).title();
    assert_eq!(TITLE_MAX_CHARS, 28);
    assert_eq!(t.chars().count(), 28);
    assert_eq!(t, long.chars().take(28).collect::<String>());
    let ascii = "a".repeat(40);
    assert_eq!(note_with(&ascii).title(), "a".repeat(28));
}

#[test]
fn title_keeps_inner_spaces() {
    assert_eq!(note_with("  to do list  \nmore").title(), "to do list");
}

#[test]
fn new_note_is_blank_task() {
    let n = Note::new(7);
    assert!(n.google_task_id.is_none());
    assert_eq!(n.task_content, "");
    assert!(!n.is_completed);
    assert!(n.scheduled_date_time.is_none());
    assert_eq!(n.priority, Priority::Unset);
    assert_eq!(n.manual_order, 7);
    assert_eq!(n.title(), "(無題)");
}

#[test]
fn new_note_id_is_uuid_v4_text() {
    let n = Note::new(0);
    let c: Vec<char> = n.id.chars().collect();
    assert_eq!(c.len(), 36);
    for (i, ch) in c.iter().enumerate() {
        if i == 8 || i == 13 || i == 18 || i == 23 {
            assert_eq!(*ch, '-');
        } else {
            assert!(ch.is_ascii_hexdigit() && !ch.is_ascii_uppercase());
        }
    }
    assert_eq!(c[14], '4');
    assert!(matches!(c[19], '8' | '9' | 'a' | 'b'));
    assert_ne!(Note::new(0).id, n.id);
}

#[test]
fn new_note_has_readable_timestamp() {
    let n = Note::new(0);
    assert!(n.updated_at.ends_with("+00:00"));
    let shown = fmt_updated(&n.updated_at);
    assert_ne!(shown, "—");
    assert_eq!(shown.chars().count(), 16);
}

#[test]
fn touch_changes_only_timestamp() {
    let mut n = note_with("text");
    n.updated_at = "old".to_string();
    let id = n.id.clone();
    n.touch();
    assert_ne!(n.updated_at, "old");
    assert!(n.updated_at.ends_with("+00:00"));
    assert!(n.updated_at.chars().count() >= 25);
    assert_eq!(n.id, id);
    assert_eq!(n.task_content, "text");
    assert_eq!(n.manual_order, 0);
}

#[test]
fn char_count_counts_characters() {
    assert_eq!(note_with("買い物\nab").char_count(), 6);
    assert_eq!(note_with("").char_count(), 0);
}

#[test]
fn default_priority_is_unset() {
    assert_eq!(default_priority(), Priority::Unset);
}

#[test]
fn fmt_updated_rejects_non_rfc3339() {
    assert_eq!(fmt_updated("not a date"), "—");
    assert_eq!(fmt_updated(""), "—");
}

#[test]
fn fmt_updated_renders_valid_time() {
    let s = fmt_updated("2026-06-19T00:00:00Z");
    assert_ne!(s, "—");
    assert_ne!(s, "2026-06-19T00:00:00Z");
    assert_eq!(s.chars().count(), 16);
    assert_eq!(s.chars().nth(4), Some('/'));
}

#[test]
fn updated_label_falls_back_to_dash() {
    assert_eq!(updated_label(None), "—");
    let t = LocalMinute { year: 2026, month: 6, day: 19, hour: 9, minute: 5 };
    assert_eq!(updated_label(Some(t)), "2026/06/19 09:05");
}

#[test]
fn local_minute_formatting_follows_strftime_year_rules() {
    let t = |year| LocalMinute { year, month: 12, day: 31, hour: 23, minute: 59 };
    assert_eq!(format_local_minute(t(7)), "0007/12/31 23:59");
    assert_eq!(format_local_minute(t(0)), "0000/12/31 23:59");
    assert_eq!(format_local_minute(t(9999)), "9999/12/31 23:59");
    assert_eq!(format_local_minute(t(10000)), "+10000/12/31 23:59");
    assert_eq!(format_local_minute(t(-1)), "-0001/12/31 23:59");
    assert_eq!(format_local_minute(t(-12345)), "-12345/12/31 23:59");
    assert_eq!(
        format_local_minute(LocalMinute { year: 2024, month: 1, day: 2, hour: 0, minute: 0 }),
        "2024/01/02 00:00"
    );
}

#[test]
fn fmt_updated_matches_chrono_rendering() {
    for s in ["2026-06-19T00:00:00Z", "1999-12-31T23:59:59+09:00", "0001-01-01T12:00:00-05:00"] {
        let expected = DateTime::parse_from_rfc3339(s)
            .unwrap()
            .with_timezone(&Local)
            .format("%Y/%m/%d %H:%M")
            .to_string();
        assert_eq!(fmt_updated(s), expected);
    }
}
