//! The French address adapter: bidirectional mapping between the seven-line
//! NF Z10-011 layout and the internal model.
//!
//! Known lossy path: the French layout carries no post-box line, so
//! [`internal_to_french`] drops `post_box` and [`french_to_internal`] always
//! leaves it absent. This is an inherent layout limitation, kept as such.

use vstd::prelude::*;

use crate::address::{Address, AddressView};
use crate::country::{country_code_of, country_name_of, resolve_code, resolve_name};
use crate::error::{ConversionError, ConversionErrorView};
use crate::postal::{
    is_postal_ws, lemma_joined_nonempty, lemma_postal_tokens_wf, lemma_tokens_of_rejoined,
    normalized_spaces, postal_tokens, spec_split_postal_info, split_postal_info, token_wf,
};

verus! {

/// Spec-level image of a [`FrenchAddress`].
pub ghost struct FrenchAddressView {
    pub name: Seq<char>,
    pub recipient_info: Option<Seq<char>>,
    pub geographic_info: Option<Seq<char>>,
    pub street: Seq<char>,
    pub special_mentions: Option<Seq<char>>,
    pub postal_info: Seq<char>,
    pub country: Seq<char>,
}

/// A French postal address: the seven fixed lines of NF Z10-011.
#[derive(Debug, Clone, PartialEq)]
pub struct FrenchAddress {
    /// Line 1: recipient identity.
    pub name: String,
    /// Line 2: additional identification of the recipient or delivery point.
    pub recipient_info: Option<String>,
    /// Line 3: additional geographic point (entrance, building, residence).
    pub geographic_info: Option<String>,
    /// Line 4: street number and name.
    pub street: String,
    /// Line 5: locality or special distribution service.
    pub special_mentions: Option<String>,
    /// Line 6: postal code and destination locality, space-joined.
    pub postal_info: String,
    /// Line 7: country, as a full name rather than a code.
    pub country: String,
}

impl View for FrenchAddress {
    type V = FrenchAddressView;

    open spec fn view(&self) -> FrenchAddressView {
        FrenchAddressView {
            name: self.name@,
            recipient_info: self.recipient_info.deep_view(),
            geographic_info: self.geographic_info.deep_view(),
            street: self.street@,
            special_mentions: self.special_mentions.deep_view(),
            postal_info: self.postal_info@,
            country: self.country@,
        }
    }
}

impl DeepView for FrenchAddress {
    type V = FrenchAddressView;

    open spec fn deep_view(&self) -> FrenchAddressView {
        self.view()
    }
}

impl FrenchAddress {
    /// Constructor for a [`FrenchAddress`].
    pub fn new(
        name: String,
        recipient_info: Option<String>,
        geographic_info: Option<String>,
        street: String,
        special_mentions: Option<String>,
        postal_info: String,
        country: String,
    ) -> (r: Self)
        ensures
            r@ == (FrenchAddressView {
                name: name@,
                recipient_info: recipient_info.deep_view(),
                geographic_info: geographic_info.deep_view(),
                street: street@,
                special_mentions: special_mentions.deep_view(),
                postal_info: postal_info@,
                country: country@,
            }),
    {
        Self { name, recipient_info, geographic_info, street, special_mentions, postal_info, country }
    }
}

/// What converting a French address to the internal model yields.
///
/// The postal-info line is split first (its first token is the postal code,
/// the remaining tokens rejoin as the town name); a line that cannot be
/// parsed into both a code and a nonempty town is malformed. The street
/// line must be nonempty — the internal model requires its street — and
/// last the country name is resolved to its ISO alpha-2 code.
pub open spec fn spec_french_to_internal(f: FrenchAddressView) -> Result<
    AddressView,
    ConversionErrorView,
> {
    match spec_split_postal_info(f.postal_info) {
        None => Err(ConversionErrorView::MalformedPostalInfo),
        Some(pt) => if pt.1.len() == 0 {
            Err(ConversionErrorView::MalformedPostalInfo)
        } else if f.street.len() == 0 {
            Err(ConversionErrorView::MissingRequiredField("street_name"@))
        } else {
            match country_code_of(f.country) {
                None => Err(ConversionErrorView::UnknownCountry(f.country)),
                Some(code) => Ok(
                    AddressView {
                        name: Some(f.name),
                        floor: f.geographic_info,
                        post_box: None,
                        room: f.recipient_info,
                        street_name: f.street,
                        town_name: pt.1,
                        town_location_name: f.special_mentions,
                        post_code: pt.0,
                        country: code,
                    },
                ),
            }
        },
    }
}

/// What converting an internal address to the French layout yields.
///
/// The recipient name is required; the country code is resolved to its long
/// name; the postal-info line is rebuilt as postal code, one space, town
/// name; `post_box` has no French slot and is dropped.
pub open spec fn spec_internal_to_french(a: AddressView) -> Result<
    FrenchAddressView,
    ConversionErrorView,
> {
    if a.name is None {
        Err(ConversionErrorView::MissingRequiredField("name"@))
    } else {
        match country_name_of(a.country) {
            None => Err(ConversionErrorView::UnknownCountry(a.country)),
            Some(n) => Ok(
                FrenchAddressView {
                    name: a.name->0,
                    recipient_info: a.room,
                    geographic_info: a.floor,
                    street: a.street_name,
                    special_mentions: a.town_location_name,
                    postal_info: a.post_code + seq![' '] + a.town_name,
                    country: n,
                },
            ),
        }
    }
}

/// Convert a French address to the internal model.
///
/// Fails with `MalformedPostalInfo` when the postal-info line holds fewer
/// than two tokens (no code/town split exists), with
/// `MissingRequiredField("street_name")` when the street line is empty, and
/// with `UnknownCountry` when the country line does not resolve; succeeds
/// on every other input. On success the address satisfies the internal
/// invariant: street, town and postal code are nonempty, and the country is
/// a two-letter code recognized by the resolver.
pub fn french_to_internal(french_address: FrenchAddress) -> (r: Result<Address, ConversionError>)
    ensures
        r matches Ok(a) ==> spec_french_to_internal(french_address@) == Ok::<
            AddressView,
            ConversionErrorView,
        >(a@) && a@.street_name.len() > 0 && a@.town_name.len() > 0 && a@.post_code.len() > 0
            && a@.country.len() == 2 && country_name_of(a@.country) is Some,
        r matches Err(e) ==> spec_french_to_internal(french_address@) == Err::<
            AddressView,
            ConversionErrorView,
        >(e@),
{
    let FrenchAddress {
        name,
        recipient_info,
        geographic_info,
        street,
        special_mentions,
        postal_info,
        country,
    } = french_address;
    let pt = match split_postal_info(postal_info) {
        Ok(pt) => pt,
        Err(e) => {
            return Err(e);
        },
    };
    if pt.1.as_str().is_empty() {
        return Err(ConversionError::MalformedPostalInfo);
    }
    if street.as_str().is_empty() {
        return Err(ConversionError::MissingRequiredField(String::from_str("street_name")));
    }
    let code = match resolve_code(country.as_str()) {
        Ok(c) => c,
        Err(e) => {
            return Err(e);
        },
    };
    proof {
        lemma_postal_tokens_wf(french_address@.postal_info);
        assert(token_wf(postal_tokens(french_address@.postal_info)[0]));
    }
    Ok(
        Address {
            name: Some(name),
            floor: geographic_info,
            post_box: None,
            room: recipient_info,
            street_name: street,
            town_name: pt.1,
            town_location_name: special_mentions,
            post_code: pt.0,
            country: code,
        },
    )
}

/// Convert an internal address to the French layout.
///
/// Fails with `MissingRequiredField("name")` when the recipient name is
/// absent (it is never substituted by an empty string), and with
/// `UnknownCountry` when the country code does not resolve; succeeds on
/// every other input.
pub fn internal_to_french(address: Address) -> (r: Result<FrenchAddress, ConversionError>)
    ensures
        r matches Ok(f) ==> spec_internal_to_french(address@) == Ok::<
            FrenchAddressView,
            ConversionErrorView,
        >(f@),
        r matches Err(e) ==> spec_internal_to_french(address@) == Err::<
            FrenchAddressView,
            ConversionErrorView,
        >(e@),
{
    let Address {
        name,
        floor,
        post_box: _,
        room,
        street_name,
        town_name,
        town_location_name,
        post_code,
        country,
    } = address;
    let name = match name {
        Some(n) => n,
        None => {
            return Err(ConversionError::MissingRequiredField(String::from_str("name")));
        },
    };
    let long_name = match resolve_name(country.as_str()) {
        Ok(n) => n,
        Err(e) => {
            return Err(e);
        },
    };
    let mut postal_info = post_code;
    postal_info.append(" ");
    postal_info.append(town_name.as_str());
    proof {
        reveal_strlit(" ");
        assert(" "@ =~= seq![' ']);
    }
    Ok(
        FrenchAddress {
            name,
            recipient_info: room,
            geographic_info: floor,
            street: street_name,
            special_mentions: town_location_name,
            postal_info,
            country: long_name,
        },
    )
}

/// The lossy-aware round trip: any valid internal address without a post
/// box and with a recipient name — street nonempty, postal code a single
/// whitespace-free token, town name holding at least one token, country
/// resolving symmetrically — converts to the French layout and back to an
/// address identical in every field, except that the whitespace of the town
/// name, carried through the rebuilt postal-info line, comes back
/// normalized to single spaces. A town name that is already normalized
/// comes back exactly.
pub proof fn lemma_french_round_trip(a: AddressView)
    requires
        a.post_box is None,
        a.name is Some,
        a.street_name.len() > 0,
        a.post_code.len() > 0,
        forall|k: int| 0 <= k < a.post_code.len() ==> !is_postal_ws(a.post_code[k]),
        postal_tokens(a.town_name).len() > 0,
        country_name_of(a.country) is Some,
        country_code_of(country_name_of(a.country)->0) == Some(a.country),
    ensures
        spec_internal_to_french(a) matches Ok(f) && spec_french_to_internal(f) == Ok::<
            AddressView,
            ConversionErrorView,
        >(AddressView { town_name: normalized_spaces(a.town_name), ..a }),
        normalized_spaces(a.town_name) == a.town_name ==> (spec_internal_to_french(a) matches Ok(f)
            && spec_french_to_internal(f) == Ok::<AddressView, ConversionErrorView>(a)),
{
    let f = spec_internal_to_french(a)->Ok_0;
    lemma_tokens_of_rejoined(a.post_code, a.town_name);
    let ts = postal_tokens(f.postal_info);
    assert(ts == seq![a.post_code] + postal_tokens(a.town_name));
    assert(ts[0] == a.post_code);
    assert(ts.drop_first() =~= postal_tokens(a.town_name));
    lemma_postal_tokens_wf(a.town_name);
    assert(token_wf(postal_tokens(a.town_name)[0]));
    lemma_joined_nonempty(postal_tokens(a.town_name));
    assert(a.name == Some(a.name->0));
}

} // verus!
