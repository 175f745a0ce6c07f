//! The ISO 20022 address adapter: bidirectional mapping between the ISO
//! structured postal-address element and the internal model.
//!
//! The internal model is a structural superset of the required ISO fields,
//! so [`internal_to_iso`] never fails. The six ISO-only fields
//! (`department`, `sub_department`, `building_number`, `building_name`,
//! `district_name`, `country_sub_division`) have no internal equivalent and
//! stay absent in one direction, get discarded in the other; the internal
//! `name` has no ISO counterpart and is dropped.

use vstd::prelude::*;

use crate::address::{Address, AddressView};
use crate::country::{country_name_of, verify_country_code};
use crate::error::{ConversionError, ConversionErrorView};

verus! {

/// Spec-level image of an [`ISO20022Address`].
pub ghost struct ISO20022AddressView {
    pub department: Option<Seq<char>>,
    pub sub_department: Option<Seq<char>>,
    pub street_name: Seq<char>,
    pub building_number: Option<Seq<char>>,
    pub building_name: Option<Seq<char>>,
    pub floor: Option<Seq<char>>,
    pub post_box: Option<Seq<char>>,
    pub room: Option<Seq<char>>,
    pub post_code: Seq<char>,
    pub town_name: Seq<char>,
    pub town_location_name: Option<Seq<char>>,
    pub district_name: Option<Seq<char>>,
    pub country_sub_division: Option<Seq<char>>,
    pub country: Seq<char>,
}

/// An ISO 20022 structured postal address.
#[derive(Debug, Clone, PartialEq)]
pub struct ISO20022Address {
    /// Division of a large organization or building (wire tag `Dept`).
    pub department: Option<String>,
    /// Sub-division of a large organization or building (`SubDept`).
    pub sub_department: Option<String>,
    /// Name of a street or thoroughfare (`StrtNm`).
    pub street_name: String,
    /// Position of a building on a street (`BldgNb`).
    pub building_number: Option<String>,
    /// Name of the building or house (`BldgNm`).
    pub building_name: Option<String>,
    /// Floor or storey within a building (`Flr`).
    pub floor: Option<String>,
    /// Numbered box in a post office (`PstBx`).
    pub post_box: Option<String>,
    /// Room within a building (`Rm`).
    pub room: Option<String>,
    /// Postal code (`PstCd`).
    pub post_code: String,
    /// Name of a built-up area with defined boundaries (`TwnNm`).
    pub town_name: String,
    /// Specific location name within the town (`TwnLctnNm`).
    pub town_location_name: Option<String>,
    /// Subdivision within a country sub-division (`DstrctNm`).
    pub district_name: Option<String>,
    /// Subdivision of a country, such as a state or region (`CtrySubDvsn`).
    pub country_sub_division: Option<String>,
    /// ISO alpha-2 country code (`Ctry`).
    pub country: String,
}

impl View for ISO20022Address {
    type V = ISO20022AddressView;

    open spec fn view(&self) -> ISO20022AddressView {
        ISO20022AddressView {
            department: self.department.deep_view(),
            sub_department: self.sub_department.deep_view(),
            street_name: self.street_name@,
            building_number: self.building_number.deep_view(),
            building_name: self.building_name.deep_view(),
            floor: self.floor.deep_view(),
            post_box: self.post_box.deep_view(),
            room: self.room.deep_view(),
            post_code: self.post_code@,
            town_name: self.town_name@,
            town_location_name: self.town_location_name.deep_view(),
            district_name: self.district_name.deep_view(),
            country_sub_division: self.country_sub_division.deep_view(),
            country: self.country@,
        }
    }
}

impl DeepView for ISO20022Address {
    type V = ISO20022AddressView;

    open spec fn deep_view(&self) -> ISO20022AddressView {
        self.view()
    }
}

/// What converting an internal address to the ISO element yields: a direct
/// mapping of the shared fields, the six ISO-only fields absent, `name`
/// dropped.
pub open spec fn spec_internal_to_iso(a: AddressView) -> ISO20022AddressView {
    ISO20022AddressView {
        department: None,
        sub_department: None,
        street_name: a.street_name,
        building_number: None,
        building_name: None,
        floor: a.floor,
        post_box: a.post_box,
        room: a.room,
        post_code: a.post_code,
        town_name: a.town_name,
        town_location_name: a.town_location_name,
        district_name: None,
        country_sub_division: None,
        country: a.country,
    }
}

/// What converting an ISO element to the internal model yields: the fields
/// the internal model requires — street name, town name, postal code —
/// must be present and nonempty, and the country code must resolve; the
/// shared fields then map directly, `name` stays absent, the six ISO-only
/// fields are discarded.
pub open spec fn spec_iso_to_internal(i: ISO20022AddressView) -> Result<
    AddressView,
    ConversionErrorView,
> {
    if i.street_name.len() == 0 {
        Err(ConversionErrorView::MissingRequiredField("street_name"@))
    } else if i.town_name.len() == 0 {
        Err(ConversionErrorView::MissingRequiredField("town_name"@))
    } else if i.post_code.len() == 0 {
        Err(ConversionErrorView::MissingRequiredField("post_code"@))
    } else if country_name_of(i.country) is None {
        Err(ConversionErrorView::UnknownCountry(i.country))
    } else {
        Ok(
            AddressView {
                name: None,
                floor: i.floor,
                post_box: i.post_box,
                room: i.room,
                street_name: i.street_name,
                town_name: i.town_name,
                town_location_name: i.town_location_name,
                post_code: i.post_code,
                country: i.country,
            },
        )
    }
}

/// Convert an internal address to the ISO 20022 element. Never fails.
pub fn internal_to_iso(address: Address) -> (r: ISO20022Address)
    ensures
        r@ == spec_internal_to_iso(address@),
{
    let Address {
        name: _,
        floor,
        post_box,
        room,
        street_name,
        town_name,
        town_location_name,
        post_code,
        country,
    } = address;
    ISO20022Address {
        department: None,
        sub_department: None,
        street_name,
        building_number: None,
        building_name: None,
        floor,
        post_box,
        room,
        post_code,
        town_name,
        town_location_name,
        district_name: None,
        country_sub_division: None,
        country,
    }
}

/// Convert an ISO 20022 element to the internal model.
///
/// Fails with `MissingRequiredField` naming the first of `street_name`,
/// `town_name` or `post_code` that is empty, and with `UnknownCountry` when
/// the country code does not resolve against the reference table; succeeds
/// on every other input. On success the address satisfies the internal
/// invariant: street, town and postal code are nonempty, and the country is
/// recognized by the resolver.
pub fn iso_to_internal(iso_address: ISO20022Address) -> (r: Result<Address, ConversionError>)
    ensures
        r matches Ok(a) ==> spec_iso_to_internal(iso_address@) == Ok::<
            AddressView,
            ConversionErrorView,
        >(a@) && a@.street_name.len() > 0 && a@.town_name.len() > 0 && a@.post_code.len() > 0
            && country_name_of(a@.country) is Some,
        r matches Err(e) ==> spec_iso_to_internal(iso_address@) == Err::<
            AddressView,
            ConversionErrorView,
        >(e@),
{
    if iso_address.street_name.as_str().is_empty() {
        return Err(ConversionError::MissingRequiredField(String::from_str("street_name")));
    }
    if iso_address.town_name.as_str().is_empty() {
        return Err(ConversionError::MissingRequiredField(String::from_str("town_name")));
    }
    if iso_address.post_code.as_str().is_empty() {
        return Err(ConversionError::MissingRequiredField(String::from_str("post_code")));
    }
    match verify_country_code(iso_address.country.as_str()) {
        Ok(_) => (),
        Err(e) => {
            return Err(e);
        },
    }
    let ISO20022Address {
        department: _,
        sub_department: _,
        street_name,
        building_number: _,
        building_name: _,
        floor,
        post_box,
        room,
        post_code,
        town_name,
        town_location_name,
        district_name: _,
        country_sub_division: _,
        country,
    } = iso_address;
    Ok(
        Address {
            name: None,
            floor,
            post_box,
            room,
            street_name,
            town_name,
            town_location_name,
            post_code,
            country,
        },
    )
}

/// The ISO round trip: converting any valid internal address — street,
/// town and postal code nonempty, country resolving — to the ISO element
/// and back yields an address equal to the original in every field present
/// on both sides; only `name`, which the ISO element cannot represent,
/// comes back absent.
pub proof fn lemma_iso_round_trip(a: AddressView)
    requires
        a.street_name.len() > 0,
        a.town_name.len() > 0,
        a.post_code.len() > 0,
        country_name_of(a.country) is Some,
    ensures
        spec_iso_to_internal(spec_internal_to_iso(a)) == Ok::<AddressView, ConversionErrorView>(
            AddressView { name: None, ..a },
        ),
{
}

} // verus!
