use postal_address_converter::country::{resolve_code, resolve_name, verify_country_code};
use postal_address_converter::error::ConversionError;

#[test]
fn verify_country_code_returns_ok_when_country_code_is_valid() {
    verify_country_code("FR").expect("Country code should not fail with a valid ISO code");
}

#[test]
fn verify_country_code_returns_error_when_country_code_is_invalid() {
    verify_country_code("France").expect_err("Country code should fail with an invalid ISO code");
}

#[test]
fn resolve_code_maps_a_country_name_to_its_alpha2_code() {
    assert_eq!(resolve_code("France").unwrap(), "FR".to_string());
    assert_eq!(resolve_code("Italy").unwrap(), "IT".to_string());
}

#[test]
fn resolve_name_maps_an_alpha2_code_to_the_long_name() {
    assert_eq!(resolve_name("FR").unwrap(), "France".to_string());
    assert_eq!(resolve_name("fr").unwrap(), "France".to_string());
}

#[test]
fn resolve_code_carries_the_unresolved_name_in_its_error() {
    let err = resolve_code("Atlantis").unwrap_err();
    assert_eq!(err, ConversionError::UnknownCountry("Atlantis".to_string()));
}

#[test]
fn resolve_name_carries_the_unresolved_code_in_its_error() {
    let err = resolve_name("ZZ").unwrap_err();
    assert_eq!(err, ConversionError::UnknownCountry("ZZ".to_string()));
}

#[test]
fn country_resolution_is_stable_after_the_first_lookup() {
    let name = resolve_name("FR").unwrap();
    let code = resolve_code(&name).unwrap();
    assert_eq!(resolve_name(&code).unwrap(), name);

    let name = resolve_name("it").unwrap();
    let code = resolve_code(&name).unwrap();
    assert_eq!(resolve_name(&code).unwrap(), name);
}
