//! Display-name generation for scene lights.
//!
//! Spawning and duplication both derive a display name from the number of
//! point lights that exist at the moment of creation: a spawned light is
//! `"Spotlight <count + 1>"`, a duplicated light is
//! `"<source name> <count>"`.  The two rules differ by one on purpose:
//! the asymmetry is observable editor behavior and is kept as is.

use vstd::prelude::*;
use vstd::string::StringExecFns;

verus! {

/// The decimal digit character for `d` (`d < 10`).
pub open spec fn digit_char(d: nat) -> char {
    if d == 0 {
        '0'
    } else if d == 1 {
        '1'
    } else if d == 2 {
        '2'
    } else if d == 3 {
        '3'
    } else if d == 4 {
        '4'
    } else if d == 5 {
        '5'
    } else if d == 6 {
        '6'
    } else if d == 7 {
        '7'
    } else if d == 8 {
        '8'
    } else {
        '9'
    }
}

/// The decimal rendering of `n`, most significant digit first, with no
/// leading zeros (a single zero digit for zero).
pub open spec fn dec_digits(n: nat) -> Seq<char>
    decreases n,
{
    if n < 10 {
        seq![digit_char(n)]
    } else {
        dec_digits(n / 10).push(digit_char(n % 10))
    }
}

fn digit_str(d: u64) -> (s: &'static str)
    requires
        d < 10,
    ensures
        s@ == seq![digit_char(d as nat)],
{
    let s: &'static str = if d == 0 {
        "0"
    } else if d == 1 {
        "1"
    } else if d == 2 {
        "2"
    } else if d == 3 {
        "3"
    } else if d == 4 {
        "4"
    } else if d == 5 {
        "5"
    } else if d == 6 {
        "6"
    } else if d == 7 {
        "7"
    } else if d == 8 {
        "8"
    } else {
        "9"
    };
    proof {
        reveal_strlit("0");
        reveal_strlit("1");
        reveal_strlit("2");
        reveal_strlit("3");
        reveal_strlit("4");
        reveal_strlit("5");
        reveal_strlit("6");
        reveal_strlit("7");
        reveal_strlit("8");
        reveal_strlit("9");
        assert(s@ =~= seq![digit_char(d as nat)]);
    }
    s
}

/// Render `n` in decimal.
pub fn u64_to_dec(n: u64) -> (s: String)
    ensures
        s@ == dec_digits(n as nat),
    decreases n,
{
    if n < 10 {
        String::from_str(digit_str(n))
    } else {
        let mut s = u64_to_dec(n / 10);
        s.append(digit_str(n % 10));
        proof {
            assert(s@ =~= dec_digits(n as nat));
        }
        s
    }
}

/// The display name given to a light spawned as the `n`-th one.
pub open spec fn spotlight_name_of(n: nat) -> Seq<char> {
    "Spotlight "@ + dec_digits(n)
}

pub fn spotlight_name(n: u64) -> (s: String)
    ensures
        s@ == spotlight_name_of(n as nat),
{
    let mut s = String::from_str("Spotlight ");
    let d = u64_to_dec(n);
    s.append(d.as_str());
    s
}

/// The display name given to a light duplicated from one named `base`
/// while `n` point lights exist.
pub open spec fn duplicate_name_of(base: Seq<char>, n: nat) -> Seq<char> {
    base + " "@ + dec_digits(n)
}

pub fn duplicate_name(base: &String, n: u64) -> (s: String)
    ensures
        s@ == duplicate_name_of(base@, n as nat),
{
    let mut s = base.clone();
    s.append(" ");
    let d = u64_to_dec(n);
    s.append(d.as_str());
    s
}

} // verus!
