//! Player identifiers: random (version 4) UUIDs, held as 128-bit numbers
//! and stored as their hyphenated lowercase text.
use crate::text::digit_char;
use vstd::prelude::*;

verus! {

/// 16 to the power `n`.
pub open spec fn pow16(n: nat) -> nat
    decreases n,
{
    if n == 0 {
        1
    } else {
        16 * pow16((n - 1) as nat)
    }
}

/// The `i`-th hex digit of `u`, from the most significant (0) to the
/// least (31).
pub open spec fn nibble(u: u128, i: int) -> int {
    (((u as nat) / pow16((31 - i) as nat)) % 16) as int
}

/// A hex digit in lowercase.
pub open spec fn hex_char(d: int) -> char {
    if d < 10 {
        digit_char(d)
    } else {
        (('a' as int) + d - 10) as char
    }
}

/// How many hyphens come before position `j` of the hyphenated text.
pub open spec fn hyphens_before(j: int) -> int {
    (if j > 8 { 1int } else { 0int }) + (if j > 13 { 1int } else { 0int }) + (if j > 18 {
        1int
    } else {
        0int
    }) + (if j > 23 { 1int } else { 0int })
}

/// The hyphenated lowercase text of a UUID, 8-4-4-4-12 hex digits, such as
/// `67e55044-10b1-426f-9247-bb680e5fe0c8`.
pub open spec fn uuid_text(u: u128) -> Seq<char> {
    Seq::new(
        36,
        |j: int|
            if j == 8 || j == 13 || j == 18 || j == 23 {
                '-'
            } else {
                hex_char(nibble(u, j - hyphens_before(j)))
            },
    )
}

/// A version 4 (random) UUID of the RFC 4122 variant: version digit 4, and
/// the variant digit one of 8, 9, a, b.
pub open spec fn is_v4(u: u128) -> bool {
    &&& nibble(u, 12) == 4
    &&& 8 <= nibble(u, 16) <= 11
}

/// uuid `Uuid::new_v4`: a random UUID. Only its version and variant are
/// fixed; the other 122 bits come from the random source.
#[verifier::external_body]
pub(crate) fn new_v4() -> (u: u128)
    ensures
        is_v4(u),
{
    uuid::Uuid::new_v4().as_u128()
}

/// uuid `Uuid`'s `Display` (`to_string`): the hyphenated lowercase text.
#[verifier::external_body]
pub(crate) fn uuid_to_string(u: u128) -> (r: String)
    ensures
        r@ == uuid_text(u),
{
    uuid::Uuid::from_u128(u).to_string()
}

/// What uuid `Uuid::parse_str` makes of a text: the UUID it spells in one of
/// the formats the crate accepts, or nothing.
pub uninterp spec fn spec_parse_uuid(s: Seq<char>) -> Option<u128>;

/// uuid `Uuid::parse_str`. Which texts it accepts is left to the crate (it
/// takes several formats); stated is that the hyphenated text of a UUID is
/// read back as that UUID, as the crate documents.
#[verifier::external_body]
pub(crate) fn parse_uuid(s: &str) -> (r: Option<u128>)
    ensures
        r == spec_parse_uuid(s@),
        forall|v: u128| #[trigger] uuid_text(v) == s@ ==> r == Some(v),
{
    match uuid::Uuid::parse_str(s) {
        Ok(u) => Some(u.as_u128()),
        Err(_) => None,
    }
}

} // verus!
