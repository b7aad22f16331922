//! Order identifiers: random version-4 UUIDs, held as their 128-bit value.
use vstd::prelude::*;

verus! {

/// The hyphenated lower-case text of the UUID whose 128-bit value is `id`.
pub uninterp spec fn uuid_text_of(id: u128) -> Seq<char>;

/// Relies on uuid's `Uuid::new_v4` and `Uuid::as_u128`: a random UUID. Its
/// source masks the version nibble (bits 76 to 79) to 4.
#[verifier::external_body]
pub(crate) fn new_order_id() -> (r: u128)
    ensures
        (r >> 76u128) & 0xfu128 == 4,
{
    uuid::Uuid::new_v4().as_u128()
}

/// Relies on uuid's `Uuid::from_u128` and `Uuid::hyphenated`: the 36
/// characters `xxxxxxxx-xxxx-xxxx-xxxx-xxxxxxxxxxxx` in lower-case hex.
#[verifier::external_body]
pub(crate) fn order_id_text(id: u128) -> (r: String)
    ensures
        r@ == uuid_text_of(id),
        r@.len() == 36,
{
    uuid::Uuid::from_u128(id).hyphenated().to_string()
}

} // verus!
