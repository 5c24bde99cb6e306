//! The account address type of `algonaut_core`, carried through opaquely.
//!
//! The URN stores an already-validated [`algonaut_core::Address`] and only
//! ever asks for its canonical text form. That text is the base32 rendering
//! of the address bytes plus a checksum, a pure function of the address
//! value, which [`address_text`] names.

use vstd::prelude::*;

verus! {

#[verifier::external_type_specification]
#[verifier::external_body]
pub struct ExAddress(algonaut_core::Address);

/// The canonical text of an address: what `algonaut_core` renders it as.
pub uninterp spec fn address_text(a: algonaut_core::Address) -> Seq<char>;

/// Relies on `algonaut_core::Address`'s `Display` impl (`encode_as_string`):
/// the base32-with-checksum text of an address is a function of its 32 bytes
/// alone, so equal addresses render equally on every call.
#[verifier::external_body]
pub(crate) fn format_address(a: &algonaut_core::Address) -> (r: String)
    ensures
        r@ == address_text(*a),
{
    a.to_string()
}

} // verus!
