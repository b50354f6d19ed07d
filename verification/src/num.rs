//! Decimal rendering of an integer, used for the year substitution value.

use vstd::prelude::*;

verus! {

/// The decimal digit character for `d`.
pub open spec fn digit_char(d: int) -> char {
    if d == 0 {
        '0'
    } else if d == 1 {
        '1'
    } else if d == 2 {
        '2'
    } else if d == 3 {
        '3'
    } else if d == 4 {
        '4'
    } else if d == 5 {
        '5'
    } else if d == 6 {
        '6'
    } else if d == 7 {
        '7'
    } else if d == 8 {
        '8'
    } else {
        '9'
    }
}

/// The decimal digits of a non-negative number, most significant first.
pub open spec fn dec_rep(n: nat) -> Seq<char>
    decreases n,
{
    if n < 10 {
        seq![digit_char(n as int)]
    } else {
        dec_rep(n / 10) + seq![digit_char((n % 10) as int)]
    }
}

/// The decimal rendering of an integer: the digits of its magnitude,
/// preceded by a minus sign when it is negative.
pub open spec fn int_rep(n: int) -> Seq<char> {
    if n < 0 {
        seq!['-'] + dec_rep((-n) as nat)
    } else {
        dec_rep(n as nat)
    }
}

/// Is `c` a character that a decimal rendering can consist of?
pub open spec fn is_numeric_char(c: char) -> bool {
    c == '-' || c == '0' || c == '1' || c == '2' || c == '3' || c == '4' || c == '5' || c == '6'
        || c == '7' || c == '8' || c == '9'
}

/// Every character of a decimal rendering is numeric, and there is at least
/// one.
pub proof fn lemma_int_rep_numeric(n: int)
    ensures
        int_rep(n).len() > 0,
        forall|i: int| 0 <= i < int_rep(n).len() ==> is_numeric_char(#[trigger] int_rep(n)[i]),
{
    if n < 0 {
        lemma_dec_rep_numeric((-n) as nat);
    } else {
        lemma_dec_rep_numeric(n as nat);
    }
}

proof fn lemma_dec_rep_numeric(n: nat)
    ensures
        dec_rep(n).len() > 0,
        forall|i: int| 0 <= i < dec_rep(n).len() ==> is_numeric_char(#[trigger] dec_rep(n)[i]),
    decreases n,
{
    if n < 10 {
    } else {
        lemma_dec_rep_numeric(n / 10);
    }
}

fn digit_to_char(d: u64) -> (c: char)
    requires
        d < 10,
    ensures
        c == digit_char(d as int),
{
    if d == 0 {
        '0'
    } else if d == 1 {
        '1'
    } else if d == 2 {
        '2'
    } else if d == 3 {
        '3'
    } else if d == 4 {
        '4'
    } else if d == 5 {
        '5'
    } else if d == 6 {
        '6'
    } else if d == 7 {
        '7'
    } else if d == 8 {
        '8'
    } else {
        '9'
    }
}

fn push_dec(out: &mut Vec<char>, n: u64)
    ensures
        final(out)@ == old(out)@ + dec_rep(n as nat),
    decreases n,
{
    if n < 10 {
        out.push(digit_to_char(n));
        proof {
            assert(old(out)@ + dec_rep(n as nat) =~= old(out)@.push(digit_char(n as int)));
        }
    } else {
        push_dec(out, n / 10);
        out.push(digit_to_char(n % 10));
        proof {
            assert((old(out)@ + dec_rep((n / 10) as nat)).push(digit_char((n % 10) as int))
                =~= old(out)@ + dec_rep(n as nat));
        }
    }
}

/// Renders an integer in decimal, as `int_rep` describes.
pub fn int_chars(y: i32) -> (v: Vec<char>)
    ensures
        v@ == int_rep(y as int),
{
    let mut v: Vec<char> = Vec::new();
    if y < 0 {
        v.push('-');
        let m: u64 = (-(y as i64)) as u64;
        proof {
            assert(m as nat == (-(y as int)) as nat);
        }
        push_dec(&mut v, m);
        proof {
            assert(seq!['-'] + dec_rep(m as nat) =~= int_rep(y as int));
        }
    } else {
        push_dec(&mut v, y as u64);
        proof {
            assert(Seq::<char>::empty() + dec_rep((y as int) as nat) =~= int_rep(y as int));
        }
    }
    v
}

} // verus!
