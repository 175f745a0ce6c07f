use postal_address_converter::error::ConversionError;
use postal_address_converter::postal::split_postal_info;

#[test]
fn split_postal_info_into_town_name_and_post_code() {
    let postal_info = "33500 LIBOURNE".to_string();
    let (post_code, town_name) = split_postal_info(postal_info).unwrap();

    assert_eq!(post_code, "33500".to_string());
    assert_eq!(town_name, "LIBOURNE".to_string());
}

#[test]
fn split_postal_info_returns_all_information_except_post_code_in_town_name() {
    let postal_info = "33500 LIBOURNE AND ANOTHER INFORMATION".to_string();
    let (post_code, town_name) = split_postal_info(postal_info).unwrap();

    assert_eq!(post_code, "33500".to_string());
    assert_eq!(town_name, "LIBOURNE AND ANOTHER INFORMATION".to_string());
}

#[test]
fn split_postal_info_returns_error_when_postal_info_is_empty() {
    split_postal_info("".to_string()).expect_err("Should return error when postal info is empty");
}

#[test]
fn split_postal_info_empty_line_reports_malformed_postal_info() {
    let err = split_postal_info("".to_string()).unwrap_err();
    assert_eq!(err, ConversionError::MalformedPostalInfo);

    let err = split_postal_info("   \t \n".to_string()).unwrap_err();
    assert_eq!(err, ConversionError::MalformedPostalInfo);
}

#[test]
fn split_postal_info_normalizes_inner_whitespace() {
    let (post_code, town_name) =
        split_postal_info("  33380   MIOS \t CAUDOS ".to_string()).unwrap();

    assert_eq!(post_code, "33380".to_string());
    assert_eq!(town_name, "MIOS CAUDOS".to_string());
}

#[test]
fn split_postal_info_splits_on_any_unicode_whitespace() {
    let (post_code, town_name) = split_postal_info("33500\u{000B}LIBOURNE".to_string()).unwrap();
    assert_eq!(post_code, "33500".to_string());
    assert_eq!(town_name, "LIBOURNE".to_string());

    let (post_code, town_name) =
        split_postal_info("33500\u{00A0}LIBOURNE\u{2003}CEDEX".to_string()).unwrap();
    assert_eq!(post_code, "33500".to_string());
    assert_eq!(town_name, "LIBOURNE CEDEX".to_string());
}

#[test]
fn split_postal_info_with_single_token_leaves_town_name_empty() {
    let (post_code, town_name) = split_postal_info("33500".to_string()).unwrap();

    assert_eq!(post_code, "33500".to_string());
    assert_eq!(town_name, "".to_string());
}
