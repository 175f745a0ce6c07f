use postal_address_converter::address::Address;
use postal_address_converter::error::ConversionError;
use postal_address_converter::iso20022::{internal_to_iso, iso_to_internal, ISO20022Address};

#[test]
fn convert_from_internal_to_iso20022() {
    let address = Address {
        name: None,
        floor: Some("Zone industrielle de la Ballastrierre Ouest".to_string()),
        post_box: Some("BP 40122".to_string()),
        room: None,
        street_name: "22BIS RUE DES FLEURS".to_string(),
        town_name: "LIBOURNE CEDEX".to_string(),
        town_location_name: None,
        post_code: "33506".to_string(),
        country: "FR".to_string(),
    };

    let iso_address: ISO20022Address = internal_to_iso(address);

    assert_eq!(
        iso_address,
        ISO20022Address {
            department: None,
            sub_department: None,
            street_name: "22BIS RUE DES FLEURS".to_string(),
            building_number: None,
            building_name: None,
            floor: Some("Zone industrielle de la Ballastrierre Ouest".to_string()),
            post_box: Some("BP 40122".to_string()),
            room: None,
            post_code: "33506".to_string(),
            town_name: "LIBOURNE CEDEX".to_string(),
            town_location_name: None,
            district_name: None,
            country_sub_division: None,
            country: "FR".to_string(),
        }
    );
}

#[test]
fn convert_iso20022_internal_simple() {
    let initial_iso_address = ISO20022Address {
        department: None,
        sub_department: None,
        street_name: "25D RUE DES FLEURS".to_string(),
        building_number: None,
        building_name: None,
        floor: None,
        post_box: None,
        room: None,
        post_code: "33500".to_string(),
        town_name: "LIBOURNE".to_string(),
        town_location_name: None,
        district_name: None,
        country_sub_division: None,
        country: "FR".to_string(),
    };

    let internal: Address = iso_to_internal(initial_iso_address.clone()).unwrap();

    assert_eq!(
        internal,
        Address {
            name: None,
            floor: None,
            post_box: None,
            room: None,
            street_name: "25D RUE DES FLEURS".to_string(),
            town_name: "LIBOURNE".to_string(),
            town_location_name: None,
            post_code: "33500".to_string(),
            country: "FR".to_string(),
        }
    );

    let iso_address_from_internal: ISO20022Address = internal_to_iso(internal);

    assert_eq!(iso_address_from_internal, initial_iso_address);
}

#[test]
fn convert_iso20022_internal_extended() {
    let initial_iso_address = ISO20022Address {
        department: None,
        sub_department: None,
        street_name: "25 RUE DES FLEURS".to_string(),
        building_number: None,
        building_name: None,
        floor: Some("Entrée A Bâtiment Jonquille".to_string()),
        post_box: None,
        room: Some("Chez Mireille COPEAU Appartement 2".to_string()),
        post_code: "33380".to_string(),
        town_name: "MIOS".to_string(),
        town_location_name: Some("CAUDOS".to_string()),
        district_name: None,
        country_sub_division: None,
        country: "FR".to_string(),
    };

    let internal: Address = iso_to_internal(initial_iso_address.clone()).unwrap();

    assert_eq!(
        internal,
        Address {
            name: None,
            floor: Some("Entrée A Bâtiment Jonquille".to_string()),
            post_box: None,
            room: Some("Chez Mireille COPEAU Appartement 2".to_string()),
            street_name: "25 RUE DES FLEURS".to_string(),
            town_name: "MIOS".to_string(),
            town_location_name: Some("CAUDOS".to_string()),
            post_code: "33380".to_string(),
            country: "FR".to_string(),
        }
    );

    let iso_address_from_internal: ISO20022Address = internal_to_iso(internal);

    assert_eq!(iso_address_from_internal, initial_iso_address);
}

#[test]
fn iso_to_internal_with_unknown_country_fails() {
    let iso_address = ISO20022Address {
        department: None,
        sub_department: None,
        street_name: "25D RUE DES FLEURS".to_string(),
        building_number: None,
        building_name: None,
        floor: None,
        post_box: None,
        room: None,
        post_code: "33500".to_string(),
        town_name: "LIBOURNE".to_string(),
        town_location_name: None,
        district_name: None,
        country_sub_division: None,
        country: "ZZ".to_string(),
    };

    let err = iso_to_internal(iso_address).unwrap_err();
    assert_eq!(err, ConversionError::UnknownCountry("ZZ".to_string()));
}

#[test]
fn iso_to_internal_rejects_empty_required_fields() {
    let valid = ISO20022Address {
        department: None,
        sub_department: None,
        street_name: "25D RUE DES FLEURS".to_string(),
        building_number: None,
        building_name: None,
        floor: None,
        post_box: None,
        room: None,
        post_code: "33500".to_string(),
        town_name: "LIBOURNE".to_string(),
        town_location_name: None,
        district_name: None,
        country_sub_division: None,
        country: "FR".to_string(),
    };

    let iso = ISO20022Address {
        street_name: "".to_string(),
        ..valid.clone()
    };
    assert_eq!(
        iso_to_internal(iso).unwrap_err(),
        ConversionError::MissingRequiredField("street_name".to_string())
    );

    let iso = ISO20022Address {
        town_name: "".to_string(),
        ..valid.clone()
    };
    assert_eq!(
        iso_to_internal(iso).unwrap_err(),
        ConversionError::MissingRequiredField("town_name".to_string())
    );

    let iso = ISO20022Address {
        post_code: "".to_string(),
        ..valid
    };
    assert_eq!(
        iso_to_internal(iso).unwrap_err(),
        ConversionError::MissingRequiredField("post_code".to_string())
    );
}

#[test]
fn iso_round_trip_drops_only_the_name() {
    let internal = Address {
        name: Some("Monsieur Jean DURAND".to_string()),
        floor: Some("3e étage".to_string()),
        post_box: Some("BP 40122".to_string()),
        room: Some("Appartement 2".to_string()),
        street_name: "25D RUE DES FLEURS".to_string(),
        town_name: "LIBOURNE".to_string(),
        town_location_name: Some("CAUDOS".to_string()),
        post_code: "33500".to_string(),
        country: "FR".to_string(),
    };

    let back = iso_to_internal(internal_to_iso(internal.clone())).unwrap();

    assert_eq!(
        back,
        Address {
            name: None,
            ..internal
        }
    );
}
