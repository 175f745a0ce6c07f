//! The address converter facade: direct French/ISO 20022 conversions,
//! composed from the two adapters by pivoting through the internal model.
//!
//! Each stage's error propagates unchanged, so callers can tell a malformed
//! postal line from an unknown country from a missing recipient name; the
//! facade adds no failure mode of its own.

use vstd::prelude::*;

use crate::error::{ConversionError, ConversionErrorView};
use crate::french::{
    spec_french_to_internal, spec_internal_to_french, french_to_internal, internal_to_french,
    FrenchAddress, FrenchAddressView,
};
use crate::iso20022::{
    spec_internal_to_iso, spec_iso_to_internal, internal_to_iso, iso_to_internal, ISO20022Address,
    ISO20022AddressView,
};

verus! {

/// The two external address formats the converter serves.
#[derive(Clone, Debug, PartialEq, Eq)]
pub enum AddressFormat {
    /// The French NF Z10-011 seven-line layout.
    French,
    /// The ISO 20022 structured postal-address element.
    Iso20022,
}

/// What converting a French address straight to the ISO element yields:
/// the French-to-internal stage, then the infallible internal-to-ISO stage.
pub open spec fn spec_french_to_iso(f: FrenchAddressView) -> Result<
    ISO20022AddressView,
    ConversionErrorView,
> {
    match spec_french_to_internal(f) {
        Ok(a) => Ok(spec_internal_to_iso(a)),
        Err(e) => Err(e),
    }
}

/// What converting an ISO element straight to the French layout yields:
/// the ISO-to-internal stage, then the internal-to-French stage.
pub open spec fn spec_iso_to_french(i: ISO20022AddressView) -> Result<
    FrenchAddressView,
    ConversionErrorView,
> {
    match spec_iso_to_internal(i) {
        Ok(a) => spec_internal_to_french(a),
        Err(e) => Err(e),
    }
}

/// Converts addresses between the French and ISO 20022 formats, always
/// pivoting through the internal model.
pub struct AddressConverter;

impl AddressConverter {
    /// Convert a [`FrenchAddress`] to an [`ISO20022Address`].
    pub fn french_to_iso(address: FrenchAddress) -> (r: Result<ISO20022Address, ConversionError>)
        ensures
            r matches Ok(i) ==> spec_french_to_iso(address@) == Ok::<
                ISO20022AddressView,
                ConversionErrorView,
            >(i@),
            r matches Err(e) ==> spec_french_to_iso(address@) == Err::<
                ISO20022AddressView,
                ConversionErrorView,
            >(e@),
    {
        let internal_address = match french_to_internal(address) {
            Ok(a) => a,
            Err(e) => {
                return Err(e);
            },
        };
        Ok(internal_to_iso(internal_address))
    }

    /// Convert an [`ISO20022Address`] to a [`FrenchAddress`].
    pub fn iso_to_french(address: ISO20022Address) -> (r: Result<FrenchAddress, ConversionError>)
        ensures
            r matches Ok(f) ==> spec_iso_to_french(address@) == Ok::<
                FrenchAddressView,
                ConversionErrorView,
            >(f@),
            r matches Err(e) ==> spec_iso_to_french(address@) == Err::<
                FrenchAddressView,
                ConversionErrorView,
            >(e@),
    {
        let internal_address = match iso_to_internal(address) {
            Ok(a) => a,
            Err(e) => {
                return Err(e);
            },
        };
        internal_to_french(internal_address)
    }
}

} // verus!
