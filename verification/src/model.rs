//! The note model. Its fields are those of a task of the sister task
//! application, so that either program can read the other's file.

use vstd::prelude::*;
use crate::stamp::{is_utc_rfc3339_text, is_uuid_v4_text, new_note_id, now_rfc3339};
use crate::text::{
    all_space, chars_of, find_first_text_line, first_text_line, is_space, lemma_blank_has_no_text_line,
    lemma_first_text_line_bounds, lemma_line_end_at, lemma_skip_back_at, lemma_skip_fwd_at,
    lemma_first_text_line_after_blank, lemma_first_text_line_shift, lemma_text_has_text_line,
};

verus! {

broadcast use vstd::string::group_string_axioms;

#[verifier::external_type_specification]
#[verifier::external_body]
pub struct ExNaiveDateTime(chrono::NaiveDateTime);

/// Priority of a task; a note has none.
#[derive(Clone, Copy, PartialEq, Eq, Debug, Structural)]
pub enum Priority {
    High,
    Medium,
    Low,
    /// No priority (written `none` in the file).
    Unset,
}

/// The priority a note gets when its record names none.
pub fn default_priority() -> (p: Priority)
    ensures
        p == Priority::Unset,
{
    Priority::Unset
}

/// One note.
#[derive(Clone)]
pub struct Note {
    pub id: String,
    pub google_task_id: Option<String>,
    /// The note's text (the task's content).
    pub task_content: String,
    pub is_completed: bool,
    /// Notes have no due time; kept for the task application.
    pub scheduled_date_time: Option<chrono::NaiveDateTime>,
    pub priority: Priority,
    pub manual_order: i64,
    /// RFC 3339 time of the last change.
    pub updated_at: String,
}

/// Longest title, in characters.
pub const TITLE_MAX_CHARS: usize = 28;

/// Title of a note whose every line is blank.
pub open spec fn untitled_label() -> Seq<char> {
    "(無題)"@
}

/// The title shown in the list: the first line that is not blank, trimmed
/// of whitespace and cut to `TITLE_MAX_CHARS` characters; `untitled_label()`
/// when there is no such line.
pub open spec fn title_of(content: Seq<char>) -> Seq<char> {
    match first_text_line(content, 0) {
        Some((lo, hi)) => content.subrange(
            lo,
            if hi - lo > TITLE_MAX_CHARS { lo + TITLE_MAX_CHARS } else { hi },
        ),
        None => untitled_label(),
    }
}

/// A note fresh from the "new" button, as the fields stand before anything
/// is typed.
pub open spec fn is_blank_note(n: Note, order: i64) -> bool {
    &&& n.google_task_id is None
    &&& n.task_content@ == Seq::<char>::empty()
    &&& !n.is_completed
    &&& n.scheduled_date_time is None
    &&& n.priority == Priority::Unset
    &&& n.manual_order == order
}

impl Note {
    /// A blank note with the given identifier, timestamp and position.
    pub fn blank(id: String, updated_at: String, order: i64) -> (n: Note)
        ensures
            is_blank_note(n, order),
            n.id == id,
            n.updated_at == updated_at,
    {
        Note {
            id,
            google_task_id: None,
            task_content: String::new(),
            is_completed: false,
            scheduled_date_time: None,
            priority: Priority::Unset,
            manual_order: order,
            updated_at,
        }
    }

    /// A blank note at position `order`, with a fresh random identifier and
    /// the current time.
    pub fn new(order: i64) -> (n: Note)
        ensures
            is_blank_note(n, order),
            is_uuid_v4_text(n.id@),
            is_utc_rfc3339_text(n.updated_at@),
    {
        Note::blank(new_note_id(), now_rfc3339(), order)
    }

    /// Records a change: sets `updated_at` to the current time (as UTC RFC
    /// 3339 text) and leaves every other field as it was.
    pub fn touch(&mut self)
        ensures
            is_utc_rfc3339_text(final(self).updated_at@),
            final(self).id == old(self).id,
            final(self).google_task_id == old(self).google_task_id,
            final(self).task_content == old(self).task_content,
            final(self).is_completed == old(self).is_completed,
            final(self).scheduled_date_time == old(self).scheduled_date_time,
            final(self).priority == old(self).priority,
            final(self).manual_order == old(self).manual_order,
    {
        self.updated_at = now_rfc3339();
    }

    /// Number of characters of the text, shown under the editor.
    pub fn char_count(&self) -> (r: usize)
        ensures
            r == self.task_content@.len(),
    {
        self.task_content.as_str().unicode_len()
    }

    /// The title shown in the list (see `title_of`).
    pub fn title(&self) -> (r: String)
        ensures
            r@ == title_of(self.task_content@),
    {
        let chars = chars_of(self.task_content.as_str());
        match find_first_text_line(&chars) {
            Some((lo, hi)) => {
                proof {
                    lemma_first_text_line_bounds(chars@, 0);
                }
                let end = if hi - lo > TITLE_MAX_CHARS {
                    lo + TITLE_MAX_CHARS
                } else {
                    hi
                };
                String::from_str(self.task_content.as_str().substring_char(lo, end))
            },
            None => String::from_str("(無題)"),
        }
    }
}

/// A title is never empty and never longer than `TITLE_MAX_CHARS`
/// characters, and holds no line break.
pub proof fn title_is_short_single_line(content: Seq<char>)
    ensures
        0 < title_of(content).len() <= TITLE_MAX_CHARS,
        forall|k: int| 0 <= k < title_of(content).len() ==> title_of(content)[k] != '\n',
{
    reveal_strlit("(無題)");
    lemma_first_text_line_bounds(content, 0);
    let t = title_of(content);
    if let Some((lo, hi)) = first_text_line(content, 0) {
        assert forall|k: int| 0 <= k < t.len() implies t[k] != '\n' by {
            assert(t[k] == content[lo + k]);
        }
    }
}

/// A note whose text is all whitespace (or empty) is shown as untitled.
pub proof fn blank_note_is_untitled(content: Seq<char>)
    requires
        all_space(content, 0, content.len() as int),
    ensures
        title_of(content) == untitled_label(),
{
    lemma_blank_has_no_text_line(content, 0);
}

/// A note with any non-whitespace character is titled by a piece of its
/// own text: a run of one line that begins with a non-whitespace character.
pub proof fn text_note_is_titled_by_its_text(content: Seq<char>, k: int)
    requires
        0 <= k < content.len(),
        !is_space(content[k]),
    ensures
        exists|lo: int, hi: int|
            0 <= lo < hi <= content.len() && title_of(content) == content.subrange(lo, hi)
                && !is_space(content[lo]),
{
    lemma_text_has_text_line(content, 0, k);
    lemma_first_text_line_bounds(content, 0);
    let (lo, hi) = first_text_line(content, 0)->0;
    let end = if hi - lo > TITLE_MAX_CHARS { lo + TITLE_MAX_CHARS } else { hi };
    assert(title_of(content) == content.subrange(lo, end));
}

/// Blank lines at the top of a note do not change its title.
pub proof fn leading_blank_lines_do_not_change_title(blank: Seq<char>, content: Seq<char>)
    requires
        all_space(blank, 0, blank.len() as int),
        blank.len() > 0 ==> blank.last() == '\n',
    ensures
        title_of(blank + content) == title_of(content),
{
    let s = blank + content;
    let d = blank.len() as int;
    assert(all_space(s, 0, d)) by {
        assert forall|k: int| 0 <= k < d implies #[trigger] is_space(s[k]) by {
            assert(s[k] == blank[k]);
        }
    }
    lemma_first_text_line_after_blank(s, 0, d);
    lemma_first_text_line_shift(blank, content, 0);
    lemma_first_text_line_bounds(content, 0);
    if let Some((lo, hi)) = first_text_line(content, 0) {
        let end = if hi - lo > TITLE_MAX_CHARS { lo + TITLE_MAX_CHARS } else { hi };
        assert(s.subrange(d + lo, d + end) =~= content.subrange(lo, end));
    }
}

/// A first line that is already trimmed, holds text and fits the limit is
/// the title, whatever follows it on later lines.
pub proof fn clean_first_line_is_title(line: Seq<char>, rest: Seq<char>)
    requires
        0 < line.len() <= TITLE_MAX_CHARS,
        !is_space(line[0]),
        !is_space(line[line.len() - 1]),
        forall|k: int| 0 <= k < line.len() ==> line[k] != '\n',
        rest.len() == 0 || rest[0] == '\n',
    ensures
        title_of(line + rest) == line,
{
    let s = line + rest;
    let n = line.len() as int;
    assert forall|k: int| 0 <= k < n implies s[k] != '\n' by {
        assert(s[k] == line[k]);
    }
    lemma_line_end_at(s, 0, n);
    assert(s[0] == line[0]);
    lemma_skip_fwd_at(s, 0, 0, n);
    assert(s[n - 1] == line[n - 1]);
    lemma_skip_back_at(s, 0, n, n);
    assert(s.subrange(0, n) =~= line);
}

} // verus!
