//! Text forms of the numbers and flags that a listing shows.

use vstd::prelude::*;

verus! {

/// The one-character text of the decimal digit `d`, for `d` below ten.
pub open spec fn digit(d: nat) -> Seq<char> {
    "0123456789"@.subrange(d as int, d as int + 1)
}

/// The decimal form of `n`: most significant digit first, without leading zeros, and the
/// single digit `0` for zero.
pub open spec fn decimal(n: nat) -> Seq<char>
    decreases n,
{
    if n < 10 {
        digit(n)
    } else {
        decimal(n / 10) + digit(n % 10)
    }
}

/// The text form of a flag: `true` or `false`.
pub open spec fn flag(b: bool) -> Seq<char> {
    if b {
        "true"@
    } else {
        "false"@
    }
}

/// Writes `n` in decimal.
pub fn to_decimal(n: usize) -> (text: String)
    ensures
        text@ == decimal(n as nat),
    decreases n,
{
    let digits = "0123456789";
    proof {
        reveal_strlit("0123456789");
    }
    if n < 10 {
        String::from_str(digits.substring_ascii(n, n + 1))
    } else {
        let mut text = to_decimal(n / 10);
        let d: usize = n % 10;
        text.append(digits.substring_ascii(d, d + 1));
        text
    }
}

/// Writes a flag as `true` or `false`.
pub fn flag_str(b: bool) -> (text: &'static str)
    ensures
        text@ == flag(b),
{
    if b {
        "true"
    } else {
        "false"
    }
}

} // verus!
