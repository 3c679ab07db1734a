//! Typed access to an organization's `stellar.toml` configuration document.
//!
//! The document is fetched from a fixed well-known location on the
//! organization's domain and bound onto a typed schema: the [`StellarToml`]
//! manifest with its nested entities. Keys may appear under a canonical
//! lower-case name or a historical upper-case alias; rich values (network
//! addresses, public keys) are stored as strings and validated on the way in.

use vstd::prelude::*;

pub mod coerce;
pub mod errors;
pub mod laws;
pub mod resolve;
pub mod schema;
pub mod tree;

pub use coerce::{AccountKey, NetAddress, RichValue, canonical_text, deserialize, reserialize, serialize};
pub use errors::Error;
pub use resolve::{
    parse_document, parse_stellar_toml, resolve_response, stellar_toml_path,
    stellar_toml_path_insecure,
};
pub use schema::{
    AnchoredCurrencyType, Currency, CurrencyStatus, Documentation, PointOfContact, StellarToml,
    Validator, bind_currency, bind_documentation, bind_point_of_contact, bind_stellar_toml,
    bind_validator,
};
pub use tree::DocValue;

verus! {

/// The fixed relative location of the document under a domain.
pub open spec fn spec_well_known_path() -> Seq<char> {
    ".well-known/stellar.toml"@
}

/// The fixed relative location of the document under a domain.
pub fn well_known_path() -> (r: &'static str)
    ensures
        r@ == spec_well_known_path(),
{
    ".well-known/stellar.toml"
}

} // verus!
