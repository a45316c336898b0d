use kremlin::endpoints::checkout_customer_endpoint::valid_cpf;
use kremlin::endpoints::province_endpoint::normalize_country_code;
use kremlin::infrastructure::mapper::{canonical_address, country_code, optional_text};

#[test]
fn cpf_check_digits() {
    assert!(valid_cpf("52998224725"));
    assert!(!valid_cpf("52998224726"));
    assert!(!valid_cpf("11111111111"));
}

#[test]
fn country_code_is_trimmed_and_uppercased() {
    assert_eq!(normalize_country_code(" br "), Some("BR".to_string()));
    assert_eq!(normalize_country_code("Us"), Some("US".to_string()));
}

#[test]
fn country_code_rejects_missing_or_malformed_values() {
    for invalid in ["", "B", "BRA", "B1", "éR"] {
        assert_eq!(normalize_country_code(invalid), None);
    }
}

#[test]
fn canonical_address_wins_and_legacy_alias_fills_missing_value() {
    assert_eq!(
        canonical_address(Some("  Campinas ".into()), Some("São Paulo".into())),
        Some("Campinas".into())
    );
    assert_eq!(
        canonical_address(Some("  ".into()), Some(" São Paulo ".into())),
        Some("São Paulo".into())
    );
}

#[test]
fn optional_address_values_are_cleaned_and_country_is_uppercase() {
    assert_eq!(optional_text(Some("  ".into())), None);
    assert_eq!(country_code(Some(" br ".into())), Some("BR".into()));
}

#[test]
fn cpf_rejects_wrong_length_and_non_digits() {
    assert!(!valid_cpf(""));
    assert!(!valid_cpf("5299822472"));
    assert!(!valid_cpf("529982247250"));
    assert!(!valid_cpf("529.982.247-25"));
    assert!(!valid_cpf("52998224725 "));
}

#[test]
fn cpf_with_other_valid_check_digits() {
    // 111.444.777-35 is a well-known valid test number.
    assert!(valid_cpf("11144477735"));
    assert!(!valid_cpf("11144477736"));
    assert!(!valid_cpf("00000000000"));
}

#[test]
fn country_code_normalization_is_idempotent_on_examples() {
    let once = normalize_country_code(" pt").unwrap();
    assert_eq!(once, "PT");
    assert_eq!(normalize_country_code(&once), Some(once.clone()));
}

#[test]
fn optional_text_trims_unicode_whitespace() {
    assert_eq!(optional_text(Some("\u{a0} Rua Um \u{3000}".into())), Some("Rua Um".into()));
    assert_eq!(optional_text(None), None);
    assert_eq!(canonical_address(None, None), None);
    assert_eq!(canonical_address(None, Some(" x ".into())), Some("x".into()));
    assert_eq!(country_code(Some("  ".into())), None);
    assert_eq!(country_code(Some("ß".into())), Some("SS".into()));
}
