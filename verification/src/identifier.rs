//! Post identifiers: 128-bit values that the `uuid` crate generates and writes out.

use uuid::Uuid;
use vstd::prelude::*;

verus! {

/// Whether `uuid` is marked as a randomly generated identifier: the version, bits 76 to 79
/// counted from the least significant, is 4, and the variant, bits 62 and 63, is binary 10.
pub open spec fn marked_random(uuid: u128) -> bool {
    (uuid >> 76) & 0xf == 4 && (uuid >> 62) & 0x3 == 2
}

/// The one-character text of the hexadecimal digit `d` in lower case, for `d` below sixteen.
pub open spec fn hex_digit(d: nat) -> Seq<char> {
    "0123456789abcdef"@.subrange(d as int, d as int + 1)
}

/// The lowest `count` hexadecimal digits of `value`, most significant first.
pub open spec fn hex(value: nat, count: nat) -> Seq<char>
    decreases count,
{
    if count == 0 {
        Seq::empty()
    } else {
        hex(value / 16, (count - 1) as nat) + hex_digit(value % 16)
    }
}

/// The text form of an identifier: its 32 hexadecimal digits in lower case, most
/// significant first, in groups of 8, 4, 4, 4 and 12 digits joined by hyphens.
pub open spec fn hyphenated(uuid: u128) -> Seq<char> {
    let digits = hex(uuid as nat, 32);
    digits.subrange(0, 8) + "-"@ + digits.subrange(8, 12) + "-"@ + digits.subrange(12, 16)
        + "-"@ + digits.subrange(16, 20) + "-"@ + digits.subrange(20, 32)
}

/// Draws a fresh identifier with `uuid::Uuid::new_v4` and takes its value with
/// `Uuid::as_u128`.
///
/// Trusted: `new_v4` fills all bits from the operating system's random source but the
/// version and variant marks, which it sets as `marked_random` says. Nothing is claimed of the
/// other bits, so two calls may return anything, equal values included. Where the system
/// cannot supply random bytes, `new_v4` panics.
#[verifier::external_body]
pub(crate) fn generate() -> (uuid: u128)
    ensures
        marked_random(uuid),
{
    Uuid::new_v4().as_u128()
}

/// Writes an identifier out through `Uuid::from_u128` and the `Display` of `uuid::Uuid`.
///
/// Trusted: `from_u128` lays the value out most significant byte first, and `Display`
/// writes those bytes in the hyphenated lower-case form that `hyphenated` describes.
#[verifier::external_body]
pub(crate) fn to_text(uuid: u128) -> (text: String)
    ensures
        text@ == hyphenated(uuid),
{
    Uuid::from_u128(uuid).to_string()
}

} // verus!
