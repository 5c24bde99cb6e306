//! Construction and serialization of Algorand payment URIs.
//!
//! An [`AlgorandUrn`](urn::AlgorandUrn) holds an optional account address and
//! an ordered list of query parameters, and serializes to the canonical form
//! `algorand://<address>?<key>=<value>&...`. The builder accumulates fields in
//! call order; serialization preserves that order exactly.

mod addr;
mod dec;
mod urn;

pub use addr::address_text;
pub use dec::digit_char;
pub use dec::spec_dec;
pub use dec::u64_to_dec;
pub use urn::join_params;
pub use urn::lemma_join_params_push;
pub use urn::lemma_order_sensitive;
pub use urn::lemma_serialize_address_only;
pub use urn::lemma_serialize_deterministic;
pub use urn::lemma_serialize_empty;
pub use urn::param_ser;
pub use urn::scheme_prefix;
pub use urn::spec_serialize;
pub use urn::AlgorandUrn;
pub use urn::AlgorandUrnBuilder;
pub use urn::Param;
