//! Small text helpers that the sections share: decimal numerals and copies of a
//! text with some characters left out.

use vstd::prelude::*;
use vstd::string::*;

verus! {

/// Appends one character to a string by calling `String::push`.
///
/// Trusted: `push` puts `c` after what the string held and changes nothing else.
#[verifier::external_body]
pub(crate) fn push_char(s: &mut String, c: char)
    ensures
        final(s)@ == old(s)@.push(c),
{
    s.push(c)
}

/// Whether `c` is one of the characters that group the digits of a phone number
/// for reading: a space, a bracket or a hyphen.
pub open spec fn is_grouping(c: char) -> bool {
    c == ' ' || c == '(' || c == ')' || c == '-'
}

/// Whether `c` groups the digits of a phone number for reading.
pub fn grouping(c: char) -> (r: bool)
    ensures
        r == is_grouping(c),
{
    c == ' ' || c == '(' || c == ')' || c == '-'
}

/// `text` without its grouping characters.
pub open spec fn dialable(text: Seq<char>) -> Seq<char> {
    text.filter(|c: char| !is_grouping(c))
}

/// Copies `text` without its grouping characters.
pub fn strip_grouping(text: &str) -> (r: String)
    ensures
        r@ == dialable(text@),
{
    let mut out = String::new();
    let ghost keep = |c: char| !is_grouping(c);
    proof {
        reveal(Seq::filter);
        assert(text@.take(0) =~= Seq::<char>::empty());
    }
    for c in it: text.chars()
        invariant
            it.seq() == text@,
            out@ == text@.take(it.index()).filter(keep),
            keep == (|c: char| !is_grouping(c)),
    {
        proof {
            reveal(Seq::filter);
            let next = text@.take(it.index() + 1);
            assert(next.drop_last() =~= text@.take(it.index()));
            assert(next.last() == c);
        }
        if !grouping(c) {
            push_char(&mut out, c);
        }
    }
    assert(text@.take(text@.len() as int) =~= text@);
    out
}

/// The character of a decimal digit.
pub open spec fn digit_of(d: int) -> char {
    if d == 0 {
        '0'
    } else if d == 1 {
        '1'
    } else if d == 2 {
        '2'
    } else if d == 3 {
        '3'
    } else if d == 4 {
        '4'
    } else if d == 5 {
        '5'
    } else if d == 6 {
        '6'
    } else if d == 7 {
        '7'
    } else if d == 8 {
        '8'
    } else {
        '9'
    }
}

/// The decimal numeral of `n`: its digits, most significant first, without
/// leading zeros.
pub open spec fn numeral(n: nat) -> Seq<char>
    decreases n,
{
    if n < 10 {
        seq![digit_of(n as int)]
    } else {
        numeral(n / 10).push(digit_of((n % 10) as int))
    }
}

/// The character of the decimal digit `d`.
pub fn digit(d: u8) -> (r: char)
    requires
        d < 10,
    ensures
        r == digit_of(d as int),
{
    if d == 0 {
        '0'
    } else if d == 1 {
        '1'
    } else if d == 2 {
        '2'
    } else if d == 3 {
        '3'
    } else if d == 4 {
        '4'
    } else if d == 5 {
        '5'
    } else if d == 6 {
        '6'
    } else if d == 7 {
        '7'
    } else if d == 8 {
        '8'
    } else {
        '9'
    }
}

/// Writes `n` as a decimal numeral.
pub fn decimal(n: u8) -> (r: String)
    ensures
        r@ == numeral(n as nat),
{
    let mut out = String::new();
    if n >= 100 {
        push_char(&mut out, digit(n / 100));
    }
    if n >= 10 {
        push_char(&mut out, digit((n / 10) % 10));
    }
    push_char(&mut out, digit(n % 10));
    proof {
        reveal_with_fuel(numeral, 3);
        assert(out@ =~= numeral(n as nat));
    }
    out
}

/// Copies a list of strings.
pub fn copy_all(texts: &Vec<String>) -> (r: Vec<String>)
    ensures
        r.deep_view() == texts.deep_view(),
{
    let r = texts.clone();
    assert(r@ =~= texts@);
    r
}

/// Joins two strings.
pub fn join(head: &str, tail: &str) -> (r: String)
    ensures
        r@ == head@ + tail@,
{
    let mut out = String::from_str(head);
    out.append(tail);
    out
}

/// Whether two strings hold the same text.
pub fn same_text(a: &str, b: &str) -> (r: bool)
    ensures
        r == (a@ == b@),
{
    let left = String::from_str(a);
    let right = String::from_str(b);
    left == right
}

} // verus!
