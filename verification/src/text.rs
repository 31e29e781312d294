//! Small text utilities: turning a sequence of characters back into a
//! `String`, and rendering counters in decimal.

use vstd::prelude::*;

verus! {

/// Relies on `String`'s `FromIterator` over characters (through
/// `Iterator::collect`): the text holding exactly the given characters, in
/// order.
#[verifier::external_body]
pub(crate) fn string_of_chars(v: &Vec<char>) -> (r: String)
    ensures
        r@ == v@,
{
    v.iter().collect()
}

/// The decimal digit for a value below ten.
pub open spec fn dec_digit(d: nat) -> char {
    if d == 0 {
        '0'
    } else if d == 1 {
        '1'
    } else if d == 2 {
        '2'
    } else if d == 3 {
        '3'
    } else if d == 4 {
        '4'
    } else if d == 5 {
        '5'
    } else if d == 6 {
        '6'
    } else if d == 7 {
        '7'
    } else if d == 8 {
        '8'
    } else {
        '9'
    }
}

/// The usual decimal rendering of a number: no sign, no leading zero except
/// on zero itself.
pub open spec fn dec_str(n: nat) -> Seq<char>
    decreases n,
{
    if n < 10 {
        seq![dec_digit(n)]
    } else {
        dec_str(n / 10) + seq![dec_digit(n % 10)]
    }
}

fn dec_digit_char(d: u64) -> (c: char)
    requires
        d < 10,
    ensures
        c == dec_digit(d as nat),
{
    if d == 0 {
        '0'
    } else if d == 1 {
        '1'
    } else if d == 2 {
        '2'
    } else if d == 3 {
        '3'
    } else if d == 4 {
        '4'
    } else if d == 5 {
        '5'
    } else if d == 6 {
        '6'
    } else if d == 7 {
        '7'
    } else if d == 8 {
        '8'
    } else {
        '9'
    }
}

fn dec_chars(n: u64) -> (v: Vec<char>)
    ensures
        v@ == dec_str(n as nat),
    decreases n,
{
    if n < 10 {
        let mut v: Vec<char> = Vec::new();
        v.push(dec_digit_char(n));
        assert(v@ =~= seq![dec_digit(n as nat)]);
        v
    } else {
        let mut v = dec_chars(n / 10);
        v.push(dec_digit_char(n % 10));
        assert(v@ =~= dec_str((n / 10) as nat) + seq![dec_digit((n % 10) as nat)]);
        v
    }
}

/// The decimal rendering of a number, as a `String`.
pub fn dec_string(n: u64) -> (s: String)
    ensures
        s@ == dec_str(n as nat),
{
    let v = dec_chars(n);
    string_of_chars(&v)
}

} // verus!
