//! Note identities: random 128-bit numbers and the text they are written as.

use uuid::Uuid;
use vstd::prelude::*;

verus! {

/// The bits of an identity that hold its version and its variant.
pub const MARK_BITS: u128 = 0x0000_0000_0000_f000_c000_0000_0000_0000;

/// What those bits hold in a random identity: version 4, variant 1.
pub const RANDOM_MARK: u128 = 0x0000_0000_0000_4000_8000_0000_0000_0000;

/// Whether `id` is marked as a randomly drawn identity.
pub open spec fn is_random(id: u128) -> bool {
    id & MARK_BITS == RANDOM_MARK
}

/// The lower-case hexadecimal digit for `n`, where `0 <= n < 16`.
pub open spec fn hex_digit(n: u128) -> char {
    if n == 0 {
        '0'
    } else if n == 1 {
        '1'
    } else if n == 2 {
        '2'
    } else if n == 3 {
        '3'
    } else if n == 4 {
        '4'
    } else if n == 5 {
        '5'
    } else if n == 6 {
        '6'
    } else if n == 7 {
        '7'
    } else if n == 8 {
        '8'
    } else if n == 9 {
        '9'
    } else if n == 10 {
        'a'
    } else if n == 11 {
        'b'
    } else if n == 12 {
        'c'
    } else if n == 13 {
        'd'
    } else if n == 14 {
        'e'
    } else {
        'f'
    }
}

/// The `k`-th of the 32 hexadecimal digits of `id`, the most significant
/// being the one at 0.
pub open spec fn digit_at(id: u128, k: int) -> u128 {
    (id >> ((4 * (31 - k)) as u128)) & 0xf
}

/// How many of the four hyphens stand before position `p` of the text.
pub open spec fn hyphens_before(p: int) -> int {
    if p > 23 {
        4
    } else if p > 18 {
        3
    } else if p > 13 {
        2
    } else if p > 8 {
        1
    } else {
        0
    }
}

/// The text of an identity: its 32 hexadecimal digits in lower case, the
/// most significant first, in groups of 8, 4, 4, 4 and 12 that hyphens part.
pub open spec fn identity_text(id: u128) -> Seq<char> {
    Seq::new(
        36,
        |p: int|
            if p == 8 || p == 13 || p == 18 || p == 23 {
                '-'
            } else {
                hex_digit(digit_at(id, p - hyphens_before(p)))
            },
    )
}

/// Draws a new identity: calls `Uuid::new_v4` of the uuid crate and hands
/// the 128 bits of what it returns back as a number.
///
/// Trusted, not proved: that the result carries the marks of a random
/// identifier, which `new_v4` sets over whatever the operating system's
/// random source gave. Of the other bits nothing is claimed, and two calls
/// need not differ. `new_v4` panics where the random source cannot be read.
#[verifier::external_body]
pub(crate) fn fresh_identity() -> (id: u128)
    ensures
        is_random(id),
{
    Uuid::new_v4().as_u128()
}

/// Writes an identity out: calls `to_string` on the `Uuid` of the uuid crate
/// that holds the 128 bits of `id`.
///
/// Trusted, not proved: that the text is the hyphenated lower-case form of
/// the identifier, digit for digit what `identity_text` says.
#[verifier::external_body]
pub(crate) fn identity_string(id: u128) -> (text: String)
    ensures
        text@ == identity_text(id),
{
    Uuid::from_u128(id).to_string()
}

} // verus!
