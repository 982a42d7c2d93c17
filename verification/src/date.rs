//! Calendar dates and the two textual shapes in which cells hold them.
//!
//! The canonical shape is `DD/MM/YYYY`: two digits, a slash, two digits, a
//! slash, four digits. The loose shape, accepted when a cell is committed,
//! lets day and month have one digit each.

use vstd::prelude::*;
use crate::number::{all_digits, char_digit_value, char_is_digit, digit_value, is_digit};
use crate::text::{chars_of, owned, repeat};

verus! {

/// A day of the calendar.
#[derive(Clone, Copy, Debug, PartialEq, Eq, Structural)]
pub struct Date {
    pub day: u32,
    pub month: u32,
    pub year: i32,
}

/// Whether `year` has a 29th of February.
pub open spec fn is_leap_year(year: int) -> bool {
    year % 4 == 0 && (year % 100 != 0 || year % 400 == 0)
}

/// The number of days of `month` in `year`, for a month from 1 to 12.
pub open spec fn days_in_month(year: int, month: int) -> int {
    if month == 2 {
        if is_leap_year(year) {
            29
        } else {
            28
        }
    } else if month == 4 || month == 6 || month == 9 || month == 11 {
        30
    } else {
        31
    }
}

/// Whether the Gregorian calendar has the given day.
pub open spec fn is_calendar_date(year: int, month: int, day: int) -> bool {
    1 <= month <= 12 && 1 <= day <= days_in_month(year, month)
}

/// Whether `a` comes before `b`.
pub open spec fn date_before(a: Date, b: Date) -> bool {
    a.year < b.year || (a.year == b.year && (a.month < b.month || (a.month == b.month && a.day
        < b.day)))
}

/// Asks `chrono::NaiveDate::from_ymd_opt` whether a day exists. That function
/// returns a date exactly when the year lies in the range that `NaiveDate`
/// can hold, the month is from 1 to 12, and the day is from 1 to the length
/// of that month in the proleptic Gregorian calendar.
#[verifier::external_body]
fn calendar_date_exists(year: i32, month: u32, day: u32) -> (b: bool)
    ensures
        b == (-262143 <= year <= 262142 && is_calendar_date(
            year as int,
            month as int,
            day as int,
        )),
{
    chrono::NaiveDate::from_ymd_opt(year, month, day).is_some()
}

impl Date {
    /// Whether this is a day of the calendar.
    pub open spec fn valid(&self) -> bool {
        -262143 <= self.year <= 262142 && is_calendar_date(
            self.year as int,
            self.month as int,
            self.day as int,
        )
    }

    /// The date with the given parts, if the calendar has it.
    pub fn new(day: u32, month: u32, year: i32) -> (r: Option<Date>)
        ensures
            r == if (Date { day, month, year }).valid() {
                Some(Date { day, month, year })
            } else {
                None
            },
    {
        if calendar_date_exists(year, month, day) {
            Some(Date { day, month, year })
        } else {
            None
        }
    }

    /// Whether this date comes before `other`.
    pub fn is_before(&self, other: &Date) -> (b: bool)
        ensures
            b == date_before(*self, *other),
    {
        self.year < other.year || (self.year == other.year && (self.month < other.month || (
        self.month == other.month && self.day < other.day)))
    }
}

/// Whether `s` has the canonical shape `DD/MM/YYYY`.
pub open spec fn is_canonical_date(s: Seq<char>) -> bool {
    &&& s.len() == 10
    &&& is_digit(s[0])
    &&& is_digit(s[1])
    &&& s[2] == '/'
    &&& is_digit(s[3])
    &&& is_digit(s[4])
    &&& s[5] == '/'
    &&& is_digit(s[6])
    &&& is_digit(s[7])
    &&& is_digit(s[8])
    &&& is_digit(s[9])
}

/// The date that a text of canonical shape names, valid or not.
pub open spec fn canonical_parts(s: Seq<char>) -> Date {
    Date {
        day: (digit_value(s[0]) * 10 + digit_value(s[1])) as u32,
        month: (digit_value(s[3]) * 10 + digit_value(s[4])) as u32,
        year: (digit_value(s[6]) * 1000 + digit_value(s[7]) * 100 + digit_value(s[8]) * 10
            + digit_value(s[9])) as i32,
    }
}

/// The calendar date that `s` writes: `None` unless `s` has the canonical
/// shape and names a day that exists.
pub open spec fn date_of_text(s: Seq<char>) -> Option<Date> {
    if is_canonical_date(s) && canonical_parts(s).valid() {
        Some(canonical_parts(s))
    } else {
        None
    }
}

/// Whether `s` has the canonical shape `DD/MM/YYYY`.
pub fn has_date_shape(s: &str) -> (b: bool)
    ensures
        b == is_canonical_date(s@),
{
    if s.unicode_len() != 10 {
        return false;
    }
    let v = chars_of(s);
    char_is_digit(v[0]) && char_is_digit(v[1]) && v[2] == '/' && char_is_digit(v[3])
        && char_is_digit(v[4]) && v[5] == '/' && char_is_digit(v[6]) && char_is_digit(v[7])
        && char_is_digit(v[8]) && char_is_digit(v[9])
}

/// Reads a text of canonical shape as a calendar date.
pub fn parse_date(s: &str) -> (r: Option<Date>)
    ensures
        r == date_of_text(s@),
{
    if !has_date_shape(s) {
        return None;
    }
    let v = chars_of(s);
    let day: u32 = char_digit_value(v[0]) * 10 + char_digit_value(v[1]);
    let month: u32 = char_digit_value(v[3]) * 10 + char_digit_value(v[4]);
    let year: u32 = char_digit_value(v[6]) * 1000 + char_digit_value(v[7]) * 100
        + char_digit_value(v[8]) * 10 + char_digit_value(v[9]);
    Date::new(day, month, year as i32)
}

/// Whether `s` is `dl` digits, a slash, `ml` digits, a slash and four digits.
pub open spec fn has_loose_shape(s: Seq<char>, dl: int, ml: int) -> bool {
    &&& s.len() == dl + ml + 6
    &&& all_digits(s.subrange(0, dl))
    &&& s[dl] == '/'
    &&& all_digits(s.subrange(dl + 1, dl + 1 + ml))
    &&& s[dl + 1 + ml] == '/'
    &&& all_digits(s.subrange(dl + ml + 2, dl + ml + 6))
}

/// Whether `s` has the loose shape: one or two digits, a slash, one or two
/// digits, a slash, four digits.
pub open spec fn is_loose_date(s: Seq<char>) -> bool {
    has_loose_shape(s, 1, 1) || has_loose_shape(s, 1, 2) || has_loose_shape(s, 2, 1)
        || has_loose_shape(s, 2, 2)
}

/// `t` with zeros in front until it has two characters.
pub open spec fn pad2(t: Seq<char>) -> Seq<char> {
    if t.len() < 2 {
        repeat('0', (2 - t.len()) as nat) + t
    } else {
        t
    }
}

/// The canonical writing of a text that has the loose shape with a day of
/// `dl` digits and a month of `ml` digits.
pub open spec fn padded_date(s: Seq<char>, dl: int, ml: int) -> Seq<char> {
    pad2(s.subrange(0, dl)) + seq!['/'] + pad2(s.subrange(dl + 1, dl + 1 + ml)) + seq!['/']
        + s.subrange(dl + ml + 2, dl + ml + 6)
}

/// What a date cell stores for the input `s`: its canonical writing when it
/// has the loose shape, else `s` itself.
pub open spec fn normalized_date(s: Seq<char>) -> Seq<char> {
    if has_loose_shape(s, 1, 1) {
        padded_date(s, 1, 1)
    } else if has_loose_shape(s, 1, 2) {
        padded_date(s, 1, 2)
    } else if has_loose_shape(s, 2, 1) {
        padded_date(s, 2, 1)
    } else if has_loose_shape(s, 2, 2) {
        padded_date(s, 2, 2)
    } else {
        s
    }
}

proof fn lemma_padded_is_canonical(s: Seq<char>, dl: int, ml: int)
    requires
        1 <= dl <= 2,
        1 <= ml <= 2,
        has_loose_shape(s, dl, ml),
    ensures
        is_canonical_date(padded_date(s, dl, ml)),
{
    let d = s.subrange(0, dl);
    let m = s.subrange(dl + 1, dl + 1 + ml);
    let y = s.subrange(dl + ml + 2, dl + ml + 6);
    assert(is_digit(d[0]));
    assert(is_digit(m[0]));
    if dl == 2 {
        assert(is_digit(d[1]));
    }
    if ml == 2 {
        assert(is_digit(m[1]));
    }
    assert(is_digit(y[0]) && is_digit(y[1]) && is_digit(y[2]) && is_digit(y[3]));
    assert(padded_date(s, dl, ml).len() == 10);
}

/// A text of loose shape is normalized into one of canonical shape.
pub proof fn lemma_normalized_is_canonical(s: Seq<char>)
    requires
        is_loose_date(s),
    ensures
        is_canonical_date(normalized_date(s)),
{
    if has_loose_shape(s, 1, 1) {
        lemma_padded_is_canonical(s, 1, 1);
    } else if has_loose_shape(s, 1, 2) {
        lemma_padded_is_canonical(s, 1, 2);
    } else if has_loose_shape(s, 2, 1) {
        lemma_padded_is_canonical(s, 2, 1);
    } else {
        lemma_padded_is_canonical(s, 2, 2);
    }
}

/// A text of canonical shape is its own normalization.
pub proof fn lemma_canonical_is_normal(s: Seq<char>)
    requires
        is_canonical_date(s),
    ensures
        is_loose_date(s),
        normalized_date(s) == s,
{
    assert(has_loose_shape(s, 2, 2));
    assert(!has_loose_shape(s, 1, 1));
    assert(!has_loose_shape(s, 1, 2));
    assert(!has_loose_shape(s, 2, 1));
    assert(padded_date(s, 2, 2) =~= s);
}

fn digits_between(v: &Vec<char>, from: usize, to: usize) -> (b: bool)
    requires
        from <= to <= v@.len(),
    ensures
        b == all_digits(v@.subrange(from as int, to as int)),
{
    let mut i: usize = from;
    while i < to
        invariant
            from <= i <= to,
            to <= v@.len(),
            all_digits(v@.subrange(from as int, i as int)),
        decreases to - i,
    {
        if !char_is_digit(v[i]) {
            proof {
                let part = v@.subrange(from as int, to as int);
                assert(!is_digit(part[i - from]));
            }
            return false;
        }
        proof {
            let next = v@.subrange(from as int, i + 1);
            let before = v@.subrange(from as int, i as int);
            assert forall|j: int| 0 <= j < next.len() implies is_digit(#[trigger] next[j]) by {
                if j < before.len() {
                    assert(next[j] == before[j]);
                }
            }
        }
        i = i + 1;
    }
    true
}

fn loose_shape_check(v: &Vec<char>, dl: usize, ml: usize) -> (b: bool)
    requires
        1 <= dl <= 2,
        1 <= ml <= 2,
    ensures
        b == has_loose_shape(v@, dl as int, ml as int),
{
    v.len() == dl + ml + 6 && digits_between(v, 0, dl) && v[dl] == '/' && digits_between(
        v,
        dl + 1,
        dl + 1 + ml,
    ) && v[dl + 1 + ml] == '/' && digits_between(v, dl + ml + 2, dl + ml + 6)
}

fn push_padded(out: &mut String, v: &Vec<char>, from: usize, len: usize)
    requires
        1 <= len <= 2,
        from + len <= v@.len(),
    ensures
        final(out)@ == old(out)@ + pad2(v@.subrange(from as int, from + len)),
{
    let n: usize = v.len();
    if len == 1 {
        out.push('0');
        out.push(v[from]);
    } else {
        let second: usize = from + 1;
        out.push(v[from]);
        out.push(v[second]);
    }
    assert(out@ =~= old(out)@ + pad2(v@.subrange(from as int, from + len)));
}

fn write_padded_date(v: &Vec<char>, dl: usize, ml: usize) -> (r: String)
    requires
        has_loose_shape(v@, dl as int, ml as int),
        1 <= dl <= 2,
        1 <= ml <= 2,
    ensures
        r@ == padded_date(v@, dl as int, ml as int),
{
    let mut out = String::new();
    push_padded(&mut out, v, 0, dl);
    out.push('/');
    push_padded(&mut out, v, dl + 1, ml);
    out.push('/');
    let y: usize = dl + ml + 2;
    out.push(v[y]);
    out.push(v[y + 1]);
    out.push(v[y + 2]);
    out.push(v[y + 3]);
    assert(out@ =~= padded_date(v@, dl as int, ml as int));
    out
}

/// Whether `s` has the loose date shape.
pub fn has_loose_date_shape(s: &str) -> (b: bool)
    ensures
        b == is_loose_date(s@),
{
    let v = chars_of(s);
    loose_shape_check(&v, 1, 1) || loose_shape_check(&v, 1, 2) || loose_shape_check(&v, 2, 1)
        || loose_shape_check(&v, 2, 2)
}

/// Brings a date input to its canonical writing; any other input is handed
/// back unchanged.
pub fn normalize_date(s: &str) -> (r: String)
    ensures
        r@ == normalized_date(s@),
{
    let v = chars_of(s);
    if loose_shape_check(&v, 1, 1) {
        write_padded_date(&v, 1, 1)
    } else if loose_shape_check(&v, 1, 2) {
        write_padded_date(&v, 1, 2)
    } else if loose_shape_check(&v, 2, 1) {
        write_padded_date(&v, 2, 1)
    } else if loose_shape_check(&v, 2, 2) {
        write_padded_date(&v, 2, 2)
    } else {
        owned(s)
    }
}

} // verus!
