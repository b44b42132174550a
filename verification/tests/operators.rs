use wave_rs::error::WaveError;
use wave_rs::moov::{MoovConfig, MoovStatus};
use wave_rs::mtn::{generate_reference_id, parse_amount, parse_msisdn, MtnConfig};
use wave_rs::orange::{OrangeConfig, OrangeStatus};
use wave_rs::types::TransactionStatus;
use wave_rs::wave::WaveConfig;

#[test]
fn test_wave_config_debug_redacts_api_key() {
    let config = WaveConfig::new("clef-tres-secrete", "m-001");
    let output = config.redacted_debug();
    assert!(!output.contains("clef-tres-secrete"));
    assert!(output.contains("***"));
}

#[test]
fn test_orange_config_debug_redacts_client_secret() {
    let config = OrangeConfig::new("client-001", "secret-tres-confidentiel");
    let output = config.redacted_debug();
    assert!(!output.contains("secret-tres-confidentiel"));
    assert!(output.contains("***"));
}

#[test]
fn test_orange_status_mapping() {
    assert_eq!(
        TransactionStatus::from(OrangeStatus::Success),
        TransactionStatus::Successful
    );
    assert_eq!(
        TransactionStatus::from(OrangeStatus::Pending),
        TransactionStatus::Pending
    );
}

#[test]
fn test_moov_config_debug_redacts_api_key() {
    let config = MoovConfig::new("cle-moov-secrete");
    let output = config.redacted_debug();
    assert!(!output.contains("cle-moov-secrete"));
    assert!(output.contains("***"));
}

#[test]
fn test_moov_status_completed_maps_to_successful() {
    assert_eq!(
        TransactionStatus::from(MoovStatus::Completed),
        TransactionStatus::Successful
    );
}

#[test]
fn test_mtn_config_debug_redacts_secrets() {
    let config = MtnConfig::new("sub-secrete", "user-001", "cle-secrete");
    let output = config.redacted_debug();
    assert!(!output.contains("sub-secrete"));
    assert!(!output.contains("cle-secrete"));
    assert!(output.contains("user-001"));
}

#[test]
fn test_mtn_reference_id_is_uuid_v4_shaped() {
    let id = generate_reference_id();
    assert_eq!(id.len(), 36);
    let dashes: Vec<usize> = id
        .char_indices()
        .filter(|(_, c)| *c == '-')
        .map(|(i, _)| i)
        .collect();
    assert_eq!(dashes, vec![8, 13, 18, 23]);
    assert_eq!(&id[14..15], "4", "bits de version v4");
    assert!(
        matches!(&id[19..20], "8" | "9" | "a" | "b"),
        "bits de variante RFC 4122"
    );
}

#[test]
fn test_mtn_reference_ids_are_unique() {
    let a = generate_reference_id();
    let b = generate_reference_id();
    assert_ne!(a, b);
}

#[test]
fn test_mtn_parse_msisdn_adds_prefix() {
    let phone = parse_msisdn("2250707070707").unwrap();
    assert_eq!(phone.as_str(), "+2250707070707");
}

#[test]
fn test_mtn_parse_amount_rejects_garbage() {
    assert!(parse_amount("7500").is_ok());
    assert!(matches!(
        parse_amount("75.50"),
        Err(WaveError::ApiError { .. })
    ));
}
