//! The country code resolver: a pure, stateless lookup against the fixed
//! ISO-3166 reference table of the `celes` crate.
//!
//! The table itself is far too large to restate, so what the two lookups
//! return is given a name: [`country_code_of`] for name-to-code resolution
//! and [`country_name_of`] for code-to-name resolution. Both lookups depend
//! on their argument alone.

use vstd::prelude::*;

use crate::error::ConversionError;

verus! {

/// The ISO alpha-2 code that the reference table assigns to a country name,
/// or `None` when the name does not resolve.
pub uninterp spec fn country_code_of(name: Seq<char>) -> Option<Seq<char>>;

/// The canonical long country name that the reference table assigns to an
/// ISO alpha-2 code, or `None` when the code does not resolve. The lookup is
/// case-insensitive, and the code it answers for is canonical: uppercase,
/// two letters.
pub uninterp spec fn country_name_of(code: Seq<char>) -> Option<Seq<char>>;

/// Relies on `celes::Country::from_name`: a pure lookup in the crate's fixed
/// ISO-3166 table, depending on the name alone. The `alpha2` field of every
/// table entry is two characters long, and `from_alpha2` resolves every such
/// canonical code, which justifies the last two clauses.
#[verifier::external_body]
fn lookup_code(name: &str) -> (r: Option<String>)
    ensures
        r.deep_view() == country_code_of(name@),
        r matches Some(c) ==> c@.len() == 2,
        r matches Some(c) ==> country_name_of(c@) is Some,
{
    celes::Country::from_name(name).ok().map(|c| c.alpha2.to_string())
}

/// Relies on `celes::Country::from_alpha2`: a pure lookup in the crate's
/// fixed ISO-3166 table, depending on the code alone. The last clause holds
/// because the name table is keyed by the long names themselves (lowercased,
/// spaces removed): when a long name resolves at all, it resolves to the very
/// country it names, whose canonical code resolves back to that long name.
#[verifier::external_body]
fn lookup_name(code: &str) -> (r: Option<String>)
    ensures
        r.deep_view() == country_name_of(code@),
        r matches Some(n) ==> (country_code_of(n@) matches Some(c2) ==> country_name_of(c2)
            == Some(n@)),
{
    celes::Country::from_alpha2(code).ok().map(|c| c.long_name.to_string())
}

/// Resolve a full country name to its ISO alpha-2 code.
///
/// Succeeds exactly when the name is in the reference table; the code
/// returned is canonical and itself resolves back to a long name.
pub fn resolve_code(country_name: &str) -> (r: Result<String, ConversionError>)
    ensures
        r matches Ok(c) ==> country_code_of(country_name@) == Some(c@) && c@.len() == 2
            && country_name_of(c@) is Some,
        r matches Err(e) ==> country_code_of(country_name@) is None && e@
            == crate::error::ConversionErrorView::UnknownCountry(country_name@),
{
    match lookup_code(country_name) {
        Some(code) => Ok(code),
        None => Err(ConversionError::UnknownCountry(String::from_str(country_name))),
    }
}

/// Resolve an ISO alpha-2 code to the country's canonical long name.
///
/// Succeeds exactly when the code is in the reference table. The last
/// clause is the resolution-symmetry law: whenever the long name resolves
/// back to a code at all, that code resolves to the same long name again,
/// so name-to-code-to-name resolution is stable after this first lookup.
pub fn resolve_name(code: &str) -> (r: Result<String, ConversionError>)
    ensures
        r matches Ok(n) ==> country_name_of(code@) == Some(n@),
        r matches Err(e) ==> country_name_of(code@) is None && e@
            == crate::error::ConversionErrorView::UnknownCountry(code@),
        r matches Ok(n) ==> (country_code_of(n@) matches Some(c2) ==> country_name_of(c2)
            == Some(n@)),
{
    match lookup_name(code) {
        Some(name) => Ok(name),
        None => Err(ConversionError::UnknownCountry(String::from_str(code))),
    }
}

/// Check that an ISO alpha-2 code exists in the reference table.
pub fn verify_country_code(country: &str) -> (r: Result<(), ConversionError>)
    ensures
        r is Ok <==> country_name_of(country@) is Some,
        r matches Err(e) ==> e@ == crate::error::ConversionErrorView::UnknownCountry(country@),
{
    match lookup_name(country) {
        Some(_) => Ok(()),
        None => Err(ConversionError::UnknownCountry(String::from_str(country))),
    }
}

} // verus!
