//! Verified text building blocks: decimal rendering of counts, repeated
//! pieces for the gauge, and prefix concatenation for leveled lines.

use vstd::prelude::*;
use vstd::string::StringExecFns;

verus! {

/// The single decimal digit character for `d` (meaningful for `d < 10`).
pub open spec fn spec_digit(d: nat) -> Seq<char> {
    if d == 0 {
        "0"@
    } else if d == 1 {
        "1"@
    } else if d == 2 {
        "2"@
    } else if d == 3 {
        "3"@
    } else if d == 4 {
        "4"@
    } else if d == 5 {
        "5"@
    } else if d == 6 {
        "6"@
    } else if d == 7 {
        "7"@
    } else if d == 8 {
        "8"@
    } else {
        "9"@
    }
}

/// The usual decimal rendering of `n`, most significant digit first,
/// with no sign, no leading zeros (except for `n == 0` itself).
pub open spec fn spec_dec(n: nat) -> Seq<char>
    decreases n,
{
    if n < 10 {
        spec_digit(n)
    } else {
        spec_dec(n / 10) + spec_digit(n % 10)
    }
}

/// `piece` concatenated with itself `n` times.
pub open spec fn spec_repeat(piece: Seq<char>, n: nat) -> Seq<char>
    decreases n,
{
    if n == 0 {
        Seq::<char>::empty()
    } else {
        spec_repeat(piece, (n - 1) as nat) + piece
    }
}

/// Repetition multiplies length.
pub proof fn lemma_repeat_len(piece: Seq<char>, n: nat)
    ensures
        spec_repeat(piece, n).len() == n * piece.len(),
    decreases n,
{
    if n == 0 {
        assert(0 * piece.len() == 0) by (nonlinear_arith);
    } else {
        lemma_repeat_len(piece, (n - 1) as nat);
        assert((n - 1) * piece.len() + piece.len() == n * piece.len()) by (nonlinear_arith);
    }
}

fn digit_str(d: usize) -> (r: &'static str)
    requires
        d < 10,
    ensures
        r@ == spec_digit(d as nat),
{
    if d == 0 {
        "0"
    } else if d == 1 {
        "1"
    } else if d == 2 {
        "2"
    } else if d == 3 {
        "3"
    } else if d == 4 {
        "4"
    } else if d == 5 {
        "5"
    } else if d == 6 {
        "6"
    } else if d == 7 {
        "7"
    } else if d == 8 {
        "8"
    } else {
        "9"
    }
}

/// Renders `n` in decimal, exactly as `spec_dec` describes.
pub fn dec_string(n: usize) -> (r: String)
    ensures
        r@ == spec_dec(n as nat),
    decreases n,
{
    if n < 10 {
        let mut r = String::new();
        r.append(digit_str(n));
        proof {
            assert(r@ =~= spec_dec(n as nat));
        }
        r
    } else {
        let mut r = dec_string(n / 10);
        r.append(digit_str(n % 10));
        r
    }
}

/// Builds `piece` repeated `n` times.
pub fn repeat_str(piece: &str, n: usize) -> (r: String)
    ensures
        r@ == spec_repeat(piece@, n as nat),
{
    let mut r = String::new();
    proof {
        assert(r@ =~= spec_repeat(piece@, 0));
    }
    let mut i: usize = 0;
    while i < n
        invariant
            i <= n,
            r@ == spec_repeat(piece@, i as nat),
        decreases n - i,
    {
        r.append(piece);
        i = i + 1;
    }
    r
}

/// Concatenates a level prefix and a line, verbatim: the result is exactly
/// the prefix's characters followed by the line's, nothing trimmed or added.
pub fn prefixed(prefix: &str, line: &str) -> (r: String)
    ensures
        r@ == prefix@ + line@,
{
    let mut r = String::new();
    r.append(prefix);
    r.append(line);
    proof {
        assert(r@ =~= prefix@ + line@);
    }
    r
}

} // verus!
