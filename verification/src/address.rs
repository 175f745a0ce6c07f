//! The internal canonical address model: the pivot every format conversion
//! routes through.

use vstd::prelude::*;

verus! {

/// Spec-level image of an [`Address`]: every text field as a sequence of
/// characters, optional fields as `Option`.
pub ghost struct AddressView {
    pub name: Option<Seq<char>>,
    pub floor: Option<Seq<char>>,
    pub post_box: Option<Seq<char>>,
    pub room: Option<Seq<char>>,
    pub street_name: Seq<char>,
    pub town_name: Seq<char>,
    pub town_location_name: Option<Seq<char>>,
    pub post_code: Seq<char>,
    pub country: Seq<char>,
}

/// A postal address in the internal model.
///
/// `street_name`, `town_name`, `post_code` and `country` are required;
/// `country` holds an ISO-3166 alpha-2 code, validated against the country
/// reference table by every conversion that touches it.
#[derive(Debug, Clone, PartialEq)]
pub struct Address {
    /// Recipient identity, if known.
    pub name: Option<String>,
    /// Floor or storey descriptor.
    pub floor: Option<String>,
    /// Post-office box identifier.
    pub post_box: Option<String>,
    /// Room or suite descriptor.
    pub room: Option<String>,
    /// Street or thoroughfare.
    pub street_name: String,
    /// Town or locality.
    pub town_name: String,
    /// Sub-locality qualifier within the town.
    pub town_location_name: Option<String>,
    /// Postal code.
    pub post_code: String,
    /// ISO-3166 alpha-2 country code.
    pub country: String,
}

impl View for Address {
    type V = AddressView;

    open spec fn view(&self) -> AddressView {
        AddressView {
            name: self.name.deep_view(),
            floor: self.floor.deep_view(),
            post_box: self.post_box.deep_view(),
            room: self.room.deep_view(),
            street_name: self.street_name@,
            town_name: self.town_name@,
            town_location_name: self.town_location_name.deep_view(),
            post_code: self.post_code@,
            country: self.country@,
        }
    }
}

impl DeepView for Address {
    type V = AddressView;

    open spec fn deep_view(&self) -> AddressView {
        self.view()
    }
}

impl Address {
    /// Constructor for an [`Address`].
    pub fn new(
        name: Option<String>,
        floor: Option<String>,
        post_box: Option<String>,
        room: Option<String>,
        street_name: String,
        town_name: String,
        town_location_name: Option<String>,
        post_code: String,
        country: String,
    ) -> (r: Self)
        ensures
            r@ == (AddressView {
                name: name.deep_view(),
                floor: floor.deep_view(),
                post_box: post_box.deep_view(),
                room: room.deep_view(),
                street_name: street_name@,
                town_name: town_name@,
                town_location_name: town_location_name.deep_view(),
                post_code: post_code@,
                country: country@,
            }),
    {
        Self {
            name,
            floor,
            post_box,
            room,
            street_name,
            town_name,
            town_location_name,
            post_code,
            country,
        }
    }

    /// A placeholder address, useful as a fixture.
    pub fn dummy() -> (r: Self)
        ensures
            r@.name is None,
            r@.floor is None,
            r@.post_box is None,
            r@.room is None,
            r@.street_name == "123 Main St"@,
            r@.town_name == "Anytown"@,
            r@.town_location_name is None,
            r@.post_code == "12345"@,
            r@.country == "FR"@,
    {
        Self {
            name: None,
            floor: None,
            post_box: None,
            room: None,
            street_name: String::from_str("123 Main St"),
            town_name: String::from_str("Anytown"),
            town_location_name: None,
            post_code: String::from_str("12345"),
            country: String::from_str("FR"),
        }
    }
}

} // verus!
