//! Values that come from other crates: timestamps, decimals and upload ids.
use vstd::prelude::*;

verus! {

/// A playback or batch timestamp, carried through unchanged.
#[verifier::external_type_specification]
#[verifier::external_body]
pub struct ExNaiveDateTime(chrono::NaiveDateTime);

/// A playback duration in milliseconds, carried through unchanged.
#[verifier::external_type_specification]
#[verifier::external_body]
pub struct ExBigDecimal(bigdecimal::BigDecimal);

/// Relies on the derived `Clone` of `bigdecimal::BigDecimal`: the copy holds the
/// same digits and scale.
pub assume_specification[ <bigdecimal::BigDecimal as Clone>::clone ](
    b: &bigdecimal::BigDecimal,
) -> (r: bigdecimal::BigDecimal)
    ensures
        r == *b,
;

/// The 128-bit value of the uuid that a text denotes, if it denotes one.
pub uninterp spec fn uuid_value_of(s: Seq<char>) -> Option<u128>;

/// The canonical text of a uuid: lower-case hex in hyphenated groups.
pub uninterp spec fn uuid_text_of(id: u128) -> Seq<char>;

/// Relies on `uuid::Uuid::parse_str` and `Uuid::as_u128`: the result depends on
/// the text alone, and an empty text is no uuid.
#[verifier::external_body]
pub(crate) fn parse_uuid(s: &str) -> (r: Option<u128>)
    ensures
        r == uuid_value_of(s@),
        s@.len() == 0 ==> r.is_none(),
{
    uuid::Uuid::parse_str(s).ok().map(|u| u.as_u128())
}

/// Relies on `uuid::Uuid::from_u128` and its `Display`: the hyphenated form,
/// 36 characters long.
#[verifier::external_body]
pub(crate) fn uuid_text(id: u128) -> (r: String)
    ensures
        r@ == uuid_text_of(id),
        r@.len() == 36,
{
    uuid::Uuid::from_u128(id).to_string()
}

} // verus!
