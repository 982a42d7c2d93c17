//! Decimal integers written as text.

use vstd::prelude::*;

verus! {

/// Whether `c` is one of the ten ASCII digits.
pub open spec fn is_digit(c: char) -> bool {
    '0' <= c && c <= '9'
}

/// The value of the ASCII digit `c`.
pub open spec fn digit_value(c: char) -> int {
    (c as u32) as int - 48
}

/// Whether every character of `s` is an ASCII digit.
pub open spec fn all_digits(s: Seq<char>) -> bool {
    forall|i: int| 0 <= i < s.len() ==> is_digit(#[trigger] s[i])
}

/// The number that a run of digits writes in base ten; zero for no digits.
pub open spec fn digits_value(s: Seq<char>) -> int
    decreases s.len(),
{
    if s.len() == 0 {
        0
    } else {
        digits_value(s.drop_last()) * 10 + digit_value(s.last())
    }
}

/// Whether `s` starts with a sign.
pub open spec fn has_sign(s: Seq<char>) -> bool {
    s.len() > 0 && (s[0] == '-' || s[0] == '+')
}

/// What follows the optional sign of `s`.
pub open spec fn unsigned_part(s: Seq<char>) -> Seq<char> {
    if has_sign(s) {
        s.skip(1)
    } else {
        s
    }
}

/// Whether `s` is an optional `+` or `-` followed by one or more digits and
/// nothing else.
pub open spec fn is_integer_text(s: Seq<char>) -> bool {
    unsigned_part(s).len() > 0 && all_digits(unsigned_part(s))
}

/// The integer that `s` writes, when it is an integer text.
pub open spec fn integer_value(s: Seq<char>) -> int {
    if s.len() > 0 && s[0] == '-' {
        -digits_value(unsigned_part(s))
    } else {
        digits_value(unsigned_part(s))
    }
}

/// The `i32` that `s` writes: `None` unless `s` is an integer text whose
/// value fits in 32 bits.
pub open spec fn parse_i32(s: Seq<char>) -> Option<i32> {
    if is_integer_text(s) && i32::MIN <= integer_value(s) <= i32::MAX {
        Some(integer_value(s) as i32)
    } else {
        None
    }
}

/// Whether `c` is an ASCII digit.
pub fn char_is_digit(c: char) -> (b: bool)
    ensures
        b == is_digit(c),
{
    c >= '0' && c <= '9'
}

/// The value of an ASCII digit.
pub fn char_digit_value(c: char) -> (d: u32)
    requires
        is_digit(c),
    ensures
        d == digit_value(c),
        d <= 9,
{
    let code: u32 = c as u32;
    code - 48
}

/// Reads `s` as a decimal `i32`.
pub fn parse_int(s: &str) -> (r: Option<i32>)
    ensures
        r == parse_i32(s@),
{
    let total: usize = s.unicode_len();
    let mut signed: bool = false;
    let mut negative: bool = false;
    if total > 0 {
        let first = s.get_char(0);
        signed = first == '-' || first == '+';
        negative = first == '-';
    }
    let ghost start: int = if signed { 1 } else { 0 };
    let mut seen: usize = 0;
    let mut valid: bool = true;
    let mut overflow: bool = false;
    let mut acc: i64 = 0;
    for c in it: s.chars()
        invariant
            it.seq() == s@,
            total == s@.len(),
            seen == it.index(),
            signed == has_sign(s@),
            start == if signed { 1int } else { 0int },
            valid == all_digits(s@.subrange(start, if seen < start { start } else { seen as int })),
            0 <= acc <= 2147483648,
            valid && !overflow ==> acc == digits_value(
                s@.subrange(start, if seen < start { start } else { seen as int }),
            ),
            valid && overflow ==> digits_value(
                s@.subrange(start, if seen < start { start } else { seen as int }),
            ) > 2147483648,
    {
        let ghost before = s@.subrange(start, if seen < start { start } else { seen as int });
        if !(signed && seen == 0) {
            let ghost after = s@.subrange(start, seen + 1);
            proof {
                assert(after.drop_last() =~= before);
                assert(after.last() == c);
            }
            if !char_is_digit(c) {
                valid = false;
                proof {
                    assert(!is_digit(after[after.len() - 1]));
                }
            } else if valid {
                let d: i64 = char_digit_value(c) as i64;
                proof {
                    assert forall|i: int| 0 <= i < after.len() implies is_digit(
                        #[trigger] after[i],
                    ) by {
                        if i < after.len() - 1 {
                            assert(after[i] == before[i]);
                        }
                    }
                }
                if overflow || acc * 10 + d > 2147483648 {
                    overflow = true;
                } else {
                    acc = acc * 10 + d;
                }
            } else {
                proof {
                    let i = choose|i: int| 0 <= i < before.len() && !is_digit(before[i]);
                    assert(after[i] == before[i]);
                }
            }
        } else {
            proof {
                assert(s@.subrange(start, start) =~= Seq::<char>::empty());
            }
        }
        seen = seen + 1;
    }
    proof {
        assert(s@.subrange(start, if seen < start { start } else { seen as int }) =~= unsigned_part(
            s@,
        ));
    }
    if !valid || total == 0 || (signed && total == 1) {
        None
    } else if overflow {
        None
    } else if negative {
        Some((0 - acc) as i32)
    } else if acc <= 2147483647 {
        Some(acc as i32)
    } else {
        None
    }
}

} // verus!
