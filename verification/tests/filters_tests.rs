use themer::filters::{hex_hash_filter, rgb_filter, AlphaInfo, ColorFilterError};

fn alpha_info(a: f64) -> AlphaInfo {
    AlphaInfo {
        in_range: 0.0 <= a && a <= 1.0,
        is_one: (a - 1.0).abs() < 1e-10,
        text: format!("{:.2}", a),
        shown: format!("{}", a),
    }
}

fn default_alpha() -> AlphaInfo {
    alpha_info(1.0)
}

#[test]
fn test_hex_hash_filter_success() {
    let result = hex_hash_filter(Some("FF5733"));
    assert_eq!(result.unwrap(), "#FF5733");

    let result = hex_hash_filter(Some("000000"));
    assert_eq!(result.unwrap(), "#000000");
}

#[test]
fn test_hex_hash_filter_invalid_type() {
    let result = hex_hash_filter(None);
    assert!(result.is_err());
    let err_msg = result.unwrap_err().message();
    assert!(err_msg.contains("Invalid type"));
}

#[test]
fn test_rgb_filter_basic_colors() {
    // Without hash prefix
    let result = rgb_filter(Some("FF5733"), &default_alpha());
    assert_eq!(result.unwrap(), "rgb(255, 87, 51)");

    // With hash prefix
    let result = rgb_filter(Some("#2E8B57"), &default_alpha());
    assert_eq!(result.unwrap(), "rgb(46, 139, 87)");

    // Black and white
    let result = rgb_filter(Some("000000"), &default_alpha());
    assert_eq!(result.unwrap(), "rgb(0, 0, 0)");

    let result = rgb_filter(Some("FFFFFF"), &default_alpha());
    assert_eq!(result.unwrap(), "rgb(255, 255, 255)");
}

#[test]
fn test_rgb_filter_with_alpha() {
    let result = rgb_filter(Some("4169E1"), &alpha_info(0.5));
    assert_eq!(result.unwrap(), "rgba(65, 105, 225, 0.50)");

    // Alpha = 0.0
    let result = rgb_filter(Some("FFFFFF"), &alpha_info(0.0));
    assert_eq!(result.unwrap(), "rgba(255, 255, 255, 0.00)");

    // Alpha = 1.0 should omit alpha
    let result = rgb_filter(Some("FFFFFF"), &alpha_info(1.0));
    assert_eq!(result.unwrap(), "rgb(255, 255, 255)");
}

#[test]
fn test_rgb_filter_invalid_type() {
    let result = rgb_filter(None, &default_alpha());
    assert!(result.is_err());
    assert!(result.unwrap_err().message().contains("Invalid type"));
}

#[test]
fn test_rgb_filter_invalid_length() {
    let result = rgb_filter(Some("FFF"), &default_alpha());
    assert!(result.is_err());
    assert!(result.unwrap_err().message().contains("Invalid hex code length"));

    let result = rgb_filter(Some("FF5733AA"), &default_alpha());
    assert!(result.is_err());
    assert!(result.unwrap_err().message().contains("Invalid hex code length"));
}

#[test]
fn test_rgb_filter_invalid_hex_digits() {
    let result = rgb_filter(Some("GGGGGG"), &default_alpha());
    assert!(result.is_err());
    assert!(result.unwrap_err().message().contains("Invalid hex value"));

    let result = rgb_filter(Some("12345Z"), &default_alpha());
    assert!(result.is_err());
    assert!(result.unwrap_err().message().contains("Invalid hex value"));
}

#[test]
fn test_rgb_filter_invalid_alpha_range() {
    let result = rgb_filter(Some("FFFFFF"), &alpha_info(1.5));
    assert!(result.is_err());
    assert!(result.unwrap_err().message().contains("must be between 0.0 and 1.0"));

    let result = rgb_filter(Some("FFFFFF"), &alpha_info(-0.5));
    assert!(result.is_err());
    assert!(result.unwrap_err().message().contains("must be between 0.0 and 1.0"));
}

#[test]
fn test_rgb_filter_length_and_digit_errors_are_distinct() {
    let len_err = rgb_filter(Some("FFF"), &default_alpha()).unwrap_err();
    let digit_err = rgb_filter(Some("GGGGGG"), &default_alpha()).unwrap_err();
    assert!(matches!(len_err, ColorFilterError::HexLength { .. }));
    assert!(matches!(digit_err, ColorFilterError::HexDigit { .. }));
    assert_ne!(len_err.message(), digit_err.message());
}

#[test]
fn test_rgb_filter_digit_error_names_component() {
    let err = rgb_filter(Some("FF57GG"), &default_alpha()).unwrap_err();
    assert_eq!(err.message(), "Invalid hex value for Blue component: 'GG'");

    let err = rgb_filter(Some("ZZ5733"), &default_alpha()).unwrap_err();
    assert_eq!(err.message(), "Invalid hex value for Red component: 'ZZ'");

    let err = rgb_filter(Some("FFZZ33"), &default_alpha()).unwrap_err();
    assert_eq!(err.message(), "Invalid hex value for Green component: 'ZZ'");
}

#[test]
fn test_hex_length_error_reports_actual_length() {
    let err = rgb_filter(Some("FFF"), &default_alpha()).unwrap_err();
    assert_eq!(err.message(), "Invalid hex code length: expected 6 characters, got 3");
}

#[test]
fn test_rgb_filter_lowercase_hex() {
    let result = rgb_filter(Some("ff5733"), &default_alpha());
    assert_eq!(result.unwrap(), "rgb(255, 87, 51)");
}
