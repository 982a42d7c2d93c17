//! Text primitives shared by the whole editor.
//!
//! A text is modelled by its sequence of characters. Its *length* is the
//! number of bytes of its UTF-8 encoding, which is what `str::len` measures
//! and what column widths are compared against.

use vstd::prelude::*;
use vstd::utf8::*;
use vstd::string::*;

verus! {

broadcast use {vstd::utf8::group_utf8_lib, vstd::string::group_string_axioms};

/// `String::push` appends one character to the end of the text.
pub assume_specification[ std::string::String::push ](s: &mut std::string::String, ch: char)
    ensures
        final(s)@ == old(s)@.push(ch),
;

/// `String::pop` removes the last character and returns it, or returns
/// `None` and leaves the text alone when it is empty.
pub assume_specification[ std::string::String::pop ](s: &mut std::string::String) -> (r: Option<
    char,
>)
    ensures
        old(s)@.len() == 0 ==> r is None && final(s)@ == old(s)@,
        old(s)@.len() > 0 ==> r == Some(old(s)@.last()) && final(s)@ == old(s)@.drop_last(),
;

/// Length of a text: the number of bytes of its UTF-8 encoding.
pub open spec fn text_len(s: Seq<char>) -> nat {
    encode_utf8(s).len()
}

/// The text made of `n` copies of `c`.
pub open spec fn repeat(c: char, n: nat) -> Seq<char> {
    Seq::new(n, |i: int| c)
}

/// A text of ASCII characters is as long as it has characters.
pub proof fn lemma_ascii_text_len(s: Seq<char>)
    requires
        is_ascii_chars(s),
    ensures
        text_len(s) == s.len(),
{
    is_ascii_chars_encode_utf8(s);
}

/// The empty text has length zero.
pub proof fn lemma_empty_text_len()
    ensures
        text_len(Seq::<char>::empty()) == 0,
{
    lemma_ascii_text_len(Seq::<char>::empty());
}

/// The length of a text in bytes.
pub fn str_len(s: &str) -> (n: usize)
    ensures
        n == text_len(s@),
{
    s.as_bytes().len()
}

/// Whether two texts hold the same characters.
pub fn str_eq(a: &str, b: &str) -> (r: bool)
    ensures
        r == (a@ == b@),
{
    let x = a.as_bytes();
    let y = b.as_bytes();
    proof {
        encode_utf8_decode_utf8(a@);
        encode_utf8_decode_utf8(b@);
    }
    if x.len() != y.len() {
        return false;
    }
    let n: usize = x.len();
    let mut i: usize = 0;
    while i < n
        invariant
            i <= n,
            n == x@.len(),
            n == y@.len(),
            forall|j: int| 0 <= j < i ==> x@[j] == y@[j],
            a@ == b@ ==> x@ == y@,
        decreases n - i,
    {
        if x[i] != y[i] {
            return false;
        }
        i = i + 1;
    }
    assert(x@ =~= y@);
    true
}

/// An owned copy of a text.
pub fn owned(s: &str) -> (r: String)
    ensures
        r@ == s@,
{
    String::from_str(s)
}

/// The characters of a text, one by one.
pub fn chars_of(s: &str) -> (v: Vec<char>)
    ensures
        v@ == s@,
{
    let mut v: Vec<char> = Vec::new();
    for c in it: s.chars()
        invariant
            it.seq() == s@,
            v@ == s@.take(it.index() as int),
    {
        v.push(c);
        assert(v@ =~= s@.take(it.index() + 1));
    }
    assert(v@ =~= s@);
    v
}

/// `n` copies of the character `c`.
pub fn n_of_c(n: usize, c: char) -> (r: String)
    ensures
        r@ == repeat(c, n as nat),
{
    let mut r = String::new();
    let mut i: usize = 0;
    while i < n
        invariant
            i <= n,
            r@ == repeat(c, i as nat),
        decreases n - i,
    {
        r.push(c);
        i = i + 1;
        assert(r@ =~= repeat(c, i as nat));
    }
    assert(r@ =~= repeat(c, n as nat));
    r
}

/// `a` followed by `b`.
pub fn joined(a: &str, b: &str) -> (r: String)
    ensures
        r@ == a@ + b@,
{
    let mut r = String::from_str(a);
    r.append(b);
    r
}

/// When `fit_to_sizel` can fit `text` into `n` bytes: either the text is
/// short enough to be padded, or it can be cut two bytes before `n` without
/// splitting a character.
pub open spec fn can_fit_left(text: Seq<char>, n: nat) -> bool {
    n >= text_len(text) || (n >= 2 && is_char_boundary(encode_utf8(text), n - 2))
}

/// The left-aligned fitting of `text` into `n` bytes: padded on the right
/// with `pad` when short, else cut to `n - 2` bytes and followed by `..`.
pub open spec fn fit_left(text: Seq<char>, n: nat, pad: char) -> Seq<char> {
    if n >= text_len(text) {
        text + repeat(pad, (n - text_len(text)) as nat)
    } else {
        decode_utf8(encode_utf8(text).subrange(0, n - 2)) + seq!['.', '.']
    }
}

/// The right-aligned fitting of `text` into `n` bytes: padded on the left
/// with `pad` when short, else unchanged.
pub open spec fn fit_right(text: Seq<char>, n: nat, pad: char) -> Seq<char> {
    if n > text_len(text) {
        repeat(pad, (n - text_len(text)) as nat) + text
    } else {
        text
    }
}

/// Whether `fit_to_sizel` accepts `text` and `n`.
pub fn fits_left(text: &str, n: usize) -> (r: bool)
    ensures
        r == can_fit_left(text@, n as nat),
{
    let len: usize = str_len(text);
    n >= len || (n >= 2 && text.is_char_boundary(n - 2))
}

/// Fits `text` into `n` bytes, aligned to the left.
pub fn fit_to_sizel(text: &str, n: usize, pad: char) -> (r: String)
    requires
        can_fit_left(text@, n as nat),
    ensures
        r@ == fit_left(text@, n as nat, pad),
{
    let len: usize = str_len(text);
    if n >= len {
        let mut ret = String::from_str(text);
        let padding = n_of_c(n - len, pad);
        ret.append(padding.as_str());
        ret
    } else {
        let (head, _) = text.split_at(n - 2);
        proof {
            encode_utf8_decode_utf8(head@);
        }
        let mut ret = String::from_str(head);
        ret.push('.');
        ret.push('.');
        assert(ret@ =~= head@ + seq!['.', '.']);
        ret
    }
}

/// Fits `text` into `n` bytes, aligned to the right.
pub fn fit_to_sizer(text: &str, n: usize, pad: char) -> (r: String)
    ensures
        r@ == fit_right(text@, n as nat, pad),
{
    let len: usize = str_len(text);
    if n > len {
        let mut ret = n_of_c(n - len, pad);
        ret.append(text);
        ret
    } else {
        String::from_str(text)
    }
}

/// The character that writes the decimal digit `d`.
pub open spec fn digit_char(d: int) -> char {
    if d == 0 {
        '0'
    } else if d == 1 {
        '1'
    } else if d == 2 {
        '2'
    } else if d == 3 {
        '3'
    } else if d == 4 {
        '4'
    } else if d == 5 {
        '5'
    } else if d == 6 {
        '6'
    } else if d == 7 {
        '7'
    } else if d == 8 {
        '8'
    } else {
        '9'
    }
}

/// The decimal writing of `n`, without sign or leading zeros.
pub open spec fn decimal(n: nat) -> Seq<char>
    decreases n,
{
    if n < 10 {
        seq![digit_char(n as int)]
    } else {
        decimal(n / 10).push(digit_char((n % 10) as int))
    }
}

/// The number of decimal digits of `n`; zero has one digit.
pub open spec fn digit_count(n: nat) -> nat
    decreases n,
{
    if n < 10 {
        1
    } else {
        digit_count(n / 10) + 1
    }
}

/// The decimal writing of `n` has `digit_count(n)` characters, all ASCII.
pub proof fn lemma_decimal_len(n: nat)
    ensures
        decimal(n).len() == digit_count(n),
        is_ascii_chars(decimal(n)),
        text_len(decimal(n)) == digit_count(n),
    decreases n,
{
    if n >= 10 {
        lemma_decimal_len(n / 10);
    }
    lemma_ascii_text_len(decimal(n));
}

fn digit_to_char(d: usize) -> (c: char)
    requires
        d < 10,
    ensures
        c == digit_char(d as int),
{
    if d == 0 {
        '0'
    } else if d == 1 {
        '1'
    } else if d == 2 {
        '2'
    } else if d == 3 {
        '3'
    } else if d == 4 {
        '4'
    } else if d == 5 {
        '5'
    } else if d == 6 {
        '6'
    } else if d == 7 {
        '7'
    } else if d == 8 {
        '8'
    } else {
        '9'
    }
}

/// Appends the decimal writing of `n` to `out`.
pub fn push_decimal(out: &mut String, n: usize)
    ensures
        final(out)@ == old(out)@ + decimal(n as nat),
    decreases n,
{
    if n >= 10 {
        push_decimal(out, n / 10);
    }
    out.push(digit_to_char(n % 10));
    assert(out@ =~= old(out)@ + decimal(n as nat));
}

/// The decimal writing of `n`.
pub fn decimal_text(n: usize) -> (r: String)
    ensures
        r@ == decimal(n as nat),
{
    let mut r = String::new();
    push_decimal(&mut r, n);
    assert(r@ =~= decimal(n as nat));
    r
}

/// The number of decimal digits of `n`.
pub fn count_digits(n: usize) -> (r: usize)
    ensures
        r == digit_count(n as nat),
        1 <= r <= 20,
{
    let mut r: usize = 1;
    let mut m: usize = n;
    proof {
        lemma_digit_count_bound(n as nat);
    }
    while m >= 10
        invariant
            r + digit_count(m as nat) == digit_count(n as nat) + 1,
            1 <= r,
            digit_count(n as nat) <= 20,
        decreases m,
    {
        m = m / 10;
        r = r + 1;
    }
    r
}

spec fn pow10(k: nat) -> nat
    decreases k,
{
    if k == 0 {
        1
    } else {
        10 * pow10((k - 1) as nat)
    }
}

proof fn lemma_digit_count_pow(n: nat, k: nat)
    requires
        k >= 1,
        n < pow10(k),
    ensures
        digit_count(n) <= k,
    decreases k,
{
    reveal_with_fuel(pow10, 2);
    if n >= 10 {
        assert(k >= 2);
        lemma_digit_count_pow(n / 10, (k - 1) as nat);
    }
}

proof fn lemma_digit_count_bound(n: nat)
    requires
        n <= usize::MAX,
    ensures
        digit_count(n) <= 20,
{
    assert(pow10(20) == 100_000_000_000_000_000_000nat) by {
        reveal_with_fuel(pow10, 21);
    }
    lemma_digit_count_pow(n, 20);
}

} // verus!
