//! The error taxonomy of the conversion core.
//!
//! Every failure is a normal, recoverable result value; conversions fail fast
//! and hand the error to the immediate caller unchanged.

use vstd::prelude::*;

verus! {

/// Spec-level image of a [`ConversionError`].
pub ghost enum ConversionErrorView {
    /// The French postal-info line holds no token.
    MalformedPostalInfo,
    /// A country name or ISO code does not resolve against the reference
    /// table; carries the unresolved input.
    UnknownCountry(Seq<char>),
    /// A required field is absent; carries the field name.
    MissingRequiredField(Seq<char>),
}

/// Why a conversion between address formats failed.
#[derive(Debug, Clone, PartialEq)]
pub enum ConversionError {
    /// The French postal-info line is empty: it cannot be split into a postal
    /// code and a town name.
    MalformedPostalInfo,
    /// A country name or ISO code does not resolve against the reference
    /// table; carries the unresolved input.
    UnknownCountry(String),
    /// A required field is absent; carries the field name.
    MissingRequiredField(String),
}

impl View for ConversionError {
    type V = ConversionErrorView;

    open spec fn view(&self) -> ConversionErrorView {
        match self {
            ConversionError::MalformedPostalInfo => ConversionErrorView::MalformedPostalInfo,
            ConversionError::UnknownCountry(s) => ConversionErrorView::UnknownCountry(s@),
            ConversionError::MissingRequiredField(s) => ConversionErrorView::MissingRequiredField(
                s@,
            ),
        }
    }
}

impl DeepView for ConversionError {
    type V = ConversionErrorView;

    open spec fn deep_view(&self) -> ConversionErrorView {
        self.view()
    }
}

} // verus!
