//! 128-bit identifiers and secrets.
//!
//! Accounts, leaderboards, players and their keys are all UUIDs. The library
//! carries each as a `u128` and goes through the `uuid` crate for the byte and
//! text forms.

use vstd::prelude::*;
use vstd::bytes::spec_u128_to_le_bytes;
use vstd::bytes::lemma_auto_spec_u128_to_from_le_bytes;
use crate::encoding::hex_text;

verus! {

/// The sixteen bytes of an identifier, most significant byte first.
pub open spec fn id_bytes(id: u128) -> Seq<u8> {
    spec_u128_to_le_bytes(id).reverse()
}

/// The hyphenated text of an identifier: 8, 4, 4, 4 and 12 lower-case
/// hexadecimal digits.
pub open spec fn id_text(id: u128) -> Seq<char> {
    let bytes = id_bytes(id);
    hex_text(bytes.subrange(0, 4)) + seq!['-'] + hex_text(bytes.subrange(4, 6)) + seq!['-']
        + hex_text(bytes.subrange(6, 8)) + seq!['-'] + hex_text(bytes.subrange(8, 10)) + seq!['-']
        + hex_text(bytes.subrange(10, 16))
}

/// What `Uuid::parse_str` makes of a text: the identifier, or nothing where
/// the text is in none of the forms it accepts.
pub uninterp spec fn parsed_id(text: Seq<char>) -> Option<u128>;

/// Calls `Uuid::from_u128` and `Uuid::as_bytes`. A UUID made from a 128-bit
/// value holds that value's big-endian bytes.
#[verifier::external_body]
pub(crate) fn id_to_bytes(id: u128) -> (bytes: Vec<u8>)
    ensures
        bytes@ == id_bytes(id),
{
    uuid::Uuid::from_u128(id).as_bytes().to_vec()
}

/// Calls `Uuid::from_u128` and the `Display` impl of `Uuid`, which writes the
/// hyphenated lower-case form. `Uuid::parse_str` reads every form the crate
/// writes, so the text parses back to `id`.
#[verifier::external_body]
pub(crate) fn id_to_text(id: u128) -> (text: String)
    ensures
        text@ == id_text(id),
        parsed_id(text@) == Some(id),
{
    uuid::Uuid::from_u128(id).to_string()
}

/// Calls `Uuid::parse_str` and hands out the 128-bit value of what it parsed.
#[verifier::external_body]
pub(crate) fn parse_id(text: &str) -> (id: Option<u128>)
    ensures
        id == parsed_id(text@),
{
    match uuid::Uuid::parse_str(text) {
        Ok(parsed) => Some(parsed.as_u128()),
        Err(_) => None,
    }
}

/// Distinct identifiers have distinct bytes.
pub proof fn lemma_id_bytes_injective(a: u128, b: u128)
    requires
        id_bytes(a) == id_bytes(b),
    ensures
        a == b,
{
    lemma_auto_spec_u128_to_from_le_bytes();
    let x = spec_u128_to_le_bytes(a);
    let y = spec_u128_to_le_bytes(b);
    assert(x.len() == 16 && y.len() == 16);
    assert forall|i: int| 0 <= i < 16 implies x[i] == y[i] by {
        assert(x.reverse()[15 - i] == x[i]);
        assert(y.reverse()[15 - i] == y[i]);
    }
    assert(x =~= y);
}

/// An identifier has sixteen bytes.
pub proof fn lemma_id_bytes_len(id: u128)
    ensures
        id_bytes(id).len() == 16,
{
    lemma_auto_spec_u128_to_from_le_bytes();
}

} // verus!
