//! Identifiers and timestamps: what the note model takes from `uuid` and
//! `chrono`.

use vstd::prelude::*;
use chrono::{Datelike, Timelike};

verus! {

broadcast use vstd::string::group_string_axioms;

/// A lower-case hexadecimal digit.
pub open spec fn is_lower_hex(c: char) -> bool {
    ('0' <= c && c <= '9') || ('a' <= c && c <= 'f')
}

/// The hyphenated lower-case text of a random (version 4, RFC 4122 variant)
/// UUID: `xxxxxxxx-xxxx-4xxx-Yxxx-xxxxxxxxxxxx` with `Y` one of `8 9 a b`.
pub open spec fn is_uuid_v4_text(s: Seq<char>) -> bool {
    &&& s.len() == 36
    &&& forall|i: int|
        0 <= i < 36 ==> if i == 8 || i == 13 || i == 18 || i == 23 {
            s[i] == '-'
        } else {
            is_lower_hex(#[trigger] s[i])
        }
    &&& s[14] == '4'
    &&& (s[19] == '8' || s[19] == '9' || s[19] == 'a' || s[19] == 'b')
}

/// A fresh identifier: `uuid::Uuid::new_v4()` written with `Display`.
/// The value is random; the contract claims only its shape, which is what
/// `new_v4` fixes (version and variant bits) and what `Display` writes
/// (hyphenated lower-case hex).
#[verifier::external_body]
pub(crate) fn new_note_id() -> (r: String)
    ensures
        is_uuid_v4_text(r@),
{
    uuid::Uuid::new_v4().to_string()
}

/// The shape every `DateTime<Utc>::to_rfc3339` text has: a date and a time
/// of at least `YYYY-MM-DDTHH:MM:SS` (25 characters with the offset), ending
/// in the UTC offset `+00:00`.
pub open spec fn is_utc_rfc3339_text(s: Seq<char>) -> bool {
    &&& s.len() >= 25
    &&& s.subrange(s.len() - 6, s.len() as int) == "+00:00"@
}

/// The current UTC time as RFC 3339 text: `std::time::SystemTime::now()`
/// turned into a `chrono::DateTime<Utc>` by its `From<SystemTime>` impl
/// (which also handles clocks set before 1970) and written by
/// `DateTime::to_rfc3339`. The instant depends on the clock, so only the
/// text's shape is claimed: `to_rfc3339` writes the offset with minute
/// precision and a colon, never `Z`, which for UTC is `+00:00`, after at
/// least a four-digit year, month, day, hours, minutes and seconds.
/// The conversion still panics for a clock beyond chrono's range of about
/// 262,000 years from year 0.
#[verifier::external_body]
pub(crate) fn now_rfc3339() -> (r: String)
    ensures
        is_utc_rfc3339_text(r@),
{
    chrono::DateTime::<chrono::Utc>::from(std::time::SystemTime::now()).to_rfc3339()
}

/// Whether `chrono::DateTime::parse_from_rfc3339` accepts the text.
pub uninterp spec fn rfc3339_accepts(text: Seq<char>) -> bool;

/// A local date and time to the minute.
#[derive(Clone, Copy, PartialEq, Eq, Debug, Structural)]
pub struct LocalMinute {
    pub year: i32,
    pub month: u32,
    pub day: u32,
    pub hour: u32,
    pub minute: u32,
}

impl LocalMinute {
    /// Month, day, hour and minute lie in their calendar ranges.
    pub open spec fn in_range(self) -> bool {
        &&& 1 <= self.month <= 12
        &&& 1 <= self.day <= 31
        &&& self.hour <= 23
        &&& self.minute <= 59
    }
}

/// `chrono::DateTime::parse_from_rfc3339`, and on success the parsed time
/// in the machine's local zone (`with_timezone(&Local)`), taken apart by the
/// `Datelike`/`Timelike` getters. Success is a function of the text alone
/// (`rfc3339_accepts`); the local time depends on the machine's zone, so
/// only the getters' documented ranges are claimed of it (months and days
/// start at 1, hours are below 24, minutes below 60).
#[verifier::external_body]
fn parse_rfc3339_local(s: &str) -> (r: Option<LocalMinute>)
    ensures
        r is Some <==> rfc3339_accepts(s@),
        r matches Some(t) ==> t.in_range(),
{
    match chrono::DateTime::parse_from_rfc3339(s) {
        Ok(t) => {
            let l = t.with_timezone(&chrono::Local);
            Some(LocalMinute { year: l.year(), month: l.month(), day: l.day(), hour: l.hour(), minute: l.minute() })
        },
        Err(_) => None,
    }
}

/// The decimal digit `d`.
pub open spec fn digit_char(d: nat) -> char {
    if d == 0 { '0' }
    else if d == 1 { '1' }
    else if d == 2 { '2' }
    else if d == 3 { '3' }
    else if d == 4 { '4' }
    else if d == 5 { '5' }
    else if d == 6 { '6' }
    else if d == 7 { '7' }
    else if d == 8 { '8' }
    else { '9' }
}

pub open spec fn is_digit_char(c: char) -> bool {
    '0' <= c && c <= '9'
}

/// `n` in decimal, zero-padded to at least `width` digits (at least one digit).
pub open spec fn decimal(n: nat, width: nat) -> Seq<char>
    decreases n + width,
{
    if n < 10 && width <= 1 {
        seq![digit_char(n)]
    } else {
        decimal(n / 10, if width > 0 { (width - 1) as nat } else { 0 }).push(digit_char(n % 10))
    }
}

/// A year as `%Y` writes it: four digits for years 0 to 9999, else a sign
/// and at least four digits.
pub open spec fn year_text(y: int) -> Seq<char> {
    if 0 <= y <= 9999 {
        decimal(y as nat, 4)
    } else if y < 0 {
        seq!['-'] + decimal((-y) as nat, 4)
    } else {
        seq!['+'] + decimal(y as nat, 4)
    }
}

/// A local time as `%Y/%m/%d %H:%M` writes it.
pub open spec fn minute_text(t: LocalMinute) -> Seq<char> {
    year_text(t.year as int) + seq!['/'] + decimal(t.month as nat, 2) + seq!['/'] + decimal(
        t.day as nat,
        2,
    ) + seq![' '] + decimal(t.hour as nat, 2) + seq![':'] + decimal(t.minute as nat, 2)
}

/// `10` to the power `w`.
pub open spec fn ten_pow(w: nat) -> nat
    decreases w,
{
    if w == 0 {
        1
    } else {
        10 * ten_pow((w - 1) as nat)
    }
}

/// Decimal text is digits only, at least `width` of them and at least one.
pub proof fn lemma_decimal_digits(n: nat, width: nat)
    ensures
        decimal(n, width).len() >= 1,
        decimal(n, width).len() >= width,
        forall|k: int| 0 <= k < decimal(n, width).len() ==> is_digit_char(#[trigger] decimal(n, width)[k]),
    decreases n + width,
{
    if !(n < 10 && width <= 1) {
        let w2: nat = if width > 0 { (width - 1) as nat } else { 0 };
        lemma_decimal_digits(n / 10, w2);
    }
}

/// A number below `10^width` takes exactly `width` digits.
pub proof fn lemma_decimal_exact_width(n: nat, width: nat)
    requires
        width >= 1,
        n < ten_pow(width),
    ensures
        decimal(n, width).len() == width,
    decreases width,
{
    if width > 1 {
        let w2 = (width - 1) as nat;
        assert(ten_pow(width) == 10 * ten_pow(w2));
        assert(n / 10 < ten_pow(w2)) by (nonlinear_arith)
            requires
                n < 10 * ten_pow(w2),
        ;
        lemma_decimal_exact_width(n / 10, w2);
    } else {
        assert(ten_pow(1) == 10) by {
            reveal_with_fuel(ten_pow, 2);
        }
    }
}

/// For years 0 to 9999 the text is `YYYY/MM/DD HH:MM`: sixteen characters,
/// digits with separators at fixed places.
pub proof fn minute_text_is_sixteen_chars(t: LocalMinute)
    requires
        t.in_range(),
        0 <= t.year <= 9999,
    ensures
        minute_text(t).len() == 16,
        minute_text(t)[4] == '/',
        minute_text(t)[7] == '/',
        minute_text(t)[10] == ' ',
        minute_text(t)[13] == ':',
        forall|k: int|
            0 <= k < 16 && k != 4 && k != 7 && k != 10 && k != 13 ==> is_digit_char(
                #[trigger] minute_text(t)[k],
            ),
{
    reveal_with_fuel(ten_pow, 5);
    lemma_decimal_exact_width(t.year as nat, 4);
    lemma_decimal_exact_width(t.month as nat, 2);
    lemma_decimal_exact_width(t.day as nat, 2);
    lemma_decimal_exact_width(t.hour as nat, 2);
    lemma_decimal_exact_width(t.minute as nat, 2);
    lemma_decimal_digits(t.year as nat, 4);
    lemma_decimal_digits(t.month as nat, 2);
    lemma_decimal_digits(t.day as nat, 2);
    lemma_decimal_digits(t.hour as nat, 2);
    lemma_decimal_digits(t.minute as nat, 2);
    let y = decimal(t.year as nat, 4);
    let mo = decimal(t.month as nat, 2);
    let d = decimal(t.day as nat, 2);
    let h = decimal(t.hour as nat, 2);
    let mi = decimal(t.minute as nat, 2);
    let s = minute_text(t);
    assert(s =~= y + seq!['/'] + mo + seq!['/'] + d + seq![' '] + h + seq![':'] + mi);
    assert forall|k: int|
        0 <= k < 16 && k != 4 && k != 7 && k != 10 && k != 13 implies is_digit_char(#[trigger] s[k]) by {
        if k < 4 {
            assert(s[k] == y[k]);
        } else if k < 7 {
            assert(s[k] == mo[k - 5]);
        } else if k < 10 {
            assert(s[k] == d[k - 8]);
        } else if k < 13 {
            assert(s[k] == h[k - 11]);
        } else {
            assert(s[k] == mi[k - 14]);
        }
    }
}

/// A rendered time never reads as the dash shown for unreadable timestamps.
pub proof fn rendered_time_is_not_dash(t: LocalMinute)
    ensures
        minute_text(t) != unknown_time_label(),
{
    reveal_strlit("—");
    lemma_decimal_digits((if t.year < 0 { -t.year } else { t.year as int }) as nat, 4);
    let s = minute_text(t);
    assert(s[0] != '—');
}

/// Text shown when a timestamp cannot be read.
pub open spec fn unknown_time_label() -> Seq<char> {
    "—"@
}

/// The text `"d"` of a decimal digit.
fn digit_text(d: u64) -> (r: &'static str)
    requires
        d < 10,
    ensures
        r@ == seq![digit_char(d as nat)],
{
    proof {
        reveal_strlit("0");
        reveal_strlit("1");
        reveal_strlit("2");
        reveal_strlit("3");
        reveal_strlit("4");
        reveal_strlit("5");
        reveal_strlit("6");
        reveal_strlit("7");
        reveal_strlit("8");
        reveal_strlit("9");
    }
    let r = if d == 0 {
        "0"
    } else if d == 1 {
        "1"
    } else if d == 2 {
        "2"
    } else if d == 3 {
        "3"
    } else if d == 4 {
        "4"
    } else if d == 5 {
        "5"
    } else if d == 6 {
        "6"
    } else if d == 7 {
        "7"
    } else if d == 8 {
        "8"
    } else {
        "9"
    };
    assert(r@ =~= seq![digit_char(d as nat)]);
    r
}

/// Appends `n` in decimal, zero-padded to at least `width` digits.
fn push_decimal(out: &mut String, n: u64, width: u64)
    ensures
        final(out)@ == old(out)@ + decimal(n as nat, width as nat),
    decreases n + width,
{
    if n < 10 && width <= 1 {
        out.append(digit_text(n));
    } else {
        let w2 = if width > 0 {
            width - 1
        } else {
            0
        };
        push_decimal(out, n / 10, w2);
        out.append(digit_text(n % 10));
        assert(decimal(n as nat, width as nat) == decimal((n / 10) as nat, w2 as nat).push(
            digit_char((n % 10) as nat),
        ));
    }
}

/// Appends a one-character separator.
fn push_sep(out: &mut String, c: char)
    requires
        c == '/' || c == ' ' || c == ':' || c == '-' || c == '+',
    ensures
        final(out)@ == old(out)@ + seq![c],
{
    proof {
        reveal_strlit("/");
        reveal_strlit(" ");
        reveal_strlit(":");
        reveal_strlit("-");
        reveal_strlit("+");
    }
    let t = if c == '/' {
        "/"
    } else if c == ' ' {
        " "
    } else if c == ':' {
        ":"
    } else if c == '-' {
        "-"
    } else {
        "+"
    };
    assert(t@ =~= seq![c]);
    out.append(t);
}

/// A local time written `%Y/%m/%d %H:%M`.
pub fn format_local_minute(t: LocalMinute) -> (r: String)
    ensures
        r@ == minute_text(t),
{
    let mut out = String::new();
    if 0 <= t.year && t.year <= 9999 {
        push_decimal(&mut out, t.year as u64, 4);
    } else if t.year < 0 {
        push_sep(&mut out, '-');
        let a: i64 = -(t.year as i64);
        push_decimal(&mut out, a as u64, 4);
    } else {
        push_sep(&mut out, '+');
        push_decimal(&mut out, t.year as u64, 4);
    }
    push_sep(&mut out, '/');
    push_decimal(&mut out, t.month as u64, 2);
    push_sep(&mut out, '/');
    push_decimal(&mut out, t.day as u64, 2);
    push_sep(&mut out, ' ');
    push_decimal(&mut out, t.hour as u64, 2);
    push_sep(&mut out, ':');
    push_decimal(&mut out, t.minute as u64, 2);
    assert(out@ =~= minute_text(t));
    out
}

/// The label for a timestamp: its local time written out, or a dash when
/// there is none.
pub fn updated_label(local: Option<LocalMinute>) -> (r: String)
    ensures
        match local {
            Some(t) => r@ == minute_text(t),
            None => r@ == unknown_time_label(),
        },
{
    match local {
        Some(t) => format_local_minute(t),
        None => String::from_str("—"),
    }
}

/// An RFC 3339 timestamp as local `YYYY/MM/DD HH:MM`, or a dash when the
/// text is not RFC 3339.
pub fn fmt_updated(s: &str) -> (r: String)
    ensures
        !rfc3339_accepts(s@) ==> r@ == unknown_time_label(),
        rfc3339_accepts(s@) ==> exists|t: LocalMinute| #[trigger] t.in_range() && r@ == minute_text(t),
        rfc3339_accepts(s@) ==> r@ != unknown_time_label(),
{
    let local = parse_rfc3339_local(s);
    proof {
        if let Some(t) = local {
            rendered_time_is_not_dash(t);
        }
    }
    updated_label(local)
}

} // verus!
