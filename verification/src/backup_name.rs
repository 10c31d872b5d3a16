//! Numbered backup names: for a file named `f`, the first backup candidate
//! is `f.bak`, and when that is taken, `f.bak.1`, `f.bak.2`, … follow. The
//! caller tries the candidates in order and copies the file to the first one
//! that does not exist yet; this module computes the candidates.

use vstd::prelude::*;
use vstd::string::StringExecFns;

verus! {

/// The decimal digit character for `d`.
pub open spec fn digit_char(d: int) -> char {
    if d == 0 {
        '0'
    } else if d == 1 {
        '1'
    } else if d == 2 {
        '2'
    } else if d == 3 {
        '3'
    } else if d == 4 {
        '4'
    } else if d == 5 {
        '5'
    } else if d == 6 {
        '6'
    } else if d == 7 {
        '7'
    } else if d == 8 {
        '8'
    } else {
        '9'
    }
}

/// The decimal numeral of `n`: most significant digit first, no sign, no
/// leading zeroes (zero itself is the single digit `0`).
pub open spec fn dec_rep(n: nat) -> Seq<char>
    decreases n,
{
    if n < 10 {
        seq![digit_char(n as int)]
    } else {
        dec_rep(n / 10).push(digit_char((n % 10) as int))
    }
}

/// The name of the `n_retries`-th backup candidate for a file named `name`:
/// `.bak` is appended for the first try, `.bak.` and the retry number for
/// the later ones.
pub open spec fn backup_name(name: Seq<char>, n_retries: nat) -> Seq<char> {
    if n_retries == 0 {
        name + ".bak"@
    } else {
        name + ".bak."@ + dec_rep(n_retries)
    }
}

/// The one-character string for the decimal digit `d`.
fn digit_str(d: u64) -> (r: &'static str)
    requires
        d < 10,
    ensures
        r@ =~= seq![digit_char(d as int)],
{
    proof {
        reveal_strlit("0");
        reveal_strlit("1");
        reveal_strlit("2");
        reveal_strlit("3");
        reveal_strlit("4");
        reveal_strlit("5");
        reveal_strlit("6");
        reveal_strlit("7");
        reveal_strlit("8");
        reveal_strlit("9");
    }
    if d == 0 {
        "0"
    } else if d == 1 {
        "1"
    } else if d == 2 {
        "2"
    } else if d == 3 {
        "3"
    } else if d == 4 {
        "4"
    } else if d == 5 {
        "5"
    } else if d == 6 {
        "6"
    } else if d == 7 {
        "7"
    } else if d == 8 {
        "8"
    } else {
        "9"
    }
}

/// Append the decimal numeral of `n` to `s`.
fn push_dec(s: &mut String, n: u64)
    ensures
        final(s)@ == old(s)@ + dec_rep(n as nat),
    decreases n,
{
    if n >= 10 {
        push_dec(s, n / 10);
        let d = digit_str(n % 10);
        s.append(d);
        proof {
            assert(s@ =~= old(s)@ + dec_rep(n as nat));
        }
    } else {
        let d = digit_str(n);
        s.append(d);
        proof {
            assert(s@ =~= old(s)@ + dec_rep(n as nat));
        }
    }
}

/// The `n_retries`-th backup candidate name for a file named `name`. The
/// caller walks `n_retries` upward from zero and uses the first candidate
/// that no file answers to.
pub fn backup_file_name(name: &str, n_retries: u64) -> (r: String)
    ensures
        r@ == backup_name(name@, n_retries as nat),
{
    let mut s = name.to_owned();
    if n_retries == 0 {
        s.append(".bak");
    } else {
        s.append(".bak.");
        push_dec(&mut s, n_retries);
        proof {
            assert(s@ =~= name@ + ".bak."@ + dec_rep(n_retries as nat));
        }
    }
    s
}

} // verus!
