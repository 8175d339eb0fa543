use garage_beam::config::{address_from, default_filter, MissingAddress, DEVICE_ADDRESS_ENV};

#[test]
fn address_from_rejects_missing() {
    assert!(address_from(None).is_err());
}

#[test]
fn address_from_rejects_empty() {
    assert!(address_from(Some("")).is_err());
}

#[test]
fn address_from_rejects_whitespace_only() {
    assert!(address_from(Some("   ")).is_err());
}

#[test]
fn address_from_returns_trimmed_value() {
    let address = address_from(Some("  AA:BB:CC:DD:EE:FF  ")).unwrap();
    assert_eq!(address, "AA:BB:CC:DD:EE:FF");
}

#[test]
fn default_filter_is_scoped_to_crate() {
    assert_eq!(default_filter(), "garage_beam=info,warn");
}

#[test]
fn a_missing_address_names_its_variable() {
    assert_eq!(DEVICE_ADDRESS_ENV, "GARAGE_BEAM_DEVICE_ADDRESS");
    assert_eq!(
        MissingAddress.message(),
        "GARAGE_BEAM_DEVICE_ADDRESS must be set to the lamp peripheral address"
    );
}
