use wave_rs::error::WaveError;
use wave_rs::types::{Currency, ListOptions, Money, PaymentRequest, PhoneNumber, TransactionId, TransactionStatus};

#[test]
fn test_core_phone_number_parse_e164_ci() {
    let number = PhoneNumber::parse("+2250707070707").unwrap();
    assert_eq!(number.as_str(), "+2250707070707");
}

#[test]
fn test_core_phone_number_parse_e164_sn() {
    let number = PhoneNumber::parse("+221771234567").unwrap();
    assert_eq!(number.as_str(), "+221771234567");
}

#[test]
fn test_core_phone_number_parse_with_region_short_format() {
    let number = PhoneNumber::parse_with_region("CI", "07 07 07 07 07").unwrap();
    assert_eq!(number.as_str(), "+2250707070707");
}

#[test]
fn test_core_phone_number_parse_invalid_rejected() {
    assert!(matches!(
        PhoneNumber::parse("hello"),
        Err(WaveError::InvalidPhoneNumber { .. })
    ));
    assert!(matches!(
        PhoneNumber::parse("+225"),
        Err(WaveError::InvalidPhoneNumber { .. })
    ));
}

#[test]
fn test_core_phone_number_short_format_without_region_rejected() {
    assert!(matches!(
        PhoneNumber::parse("07 07 07 07 07"),
        Err(WaveError::InvalidPhoneNumber { .. })
    ));
}

#[test]
fn test_core_phone_number_letters_after_prefix_rejected() {
    assert!(matches!(
        PhoneNumber::parse("+225abc"),
        Err(WaveError::InvalidPhoneNumber { .. })
    ));
}

#[test]
fn test_core_phone_number_empty_rejected() {
    assert!(matches!(
        PhoneNumber::parse(""),
        Err(WaveError::InvalidPhoneNumber { .. })
    ));
}

#[test]
fn test_core_money_xof_sets_amount_and_currency() {
    let money = Money::xof(5000);
    assert_eq!(money.amount, 5000);
    assert_eq!(money.currency, Currency::XOF);
    assert_eq!(money, Money::new(5000, Currency::XOF));
}

/// The amount is an integer: no loss of precision, even on values that an
/// f64 would round.
#[test]
fn test_core_money_large_amount_is_exact() {
    let money = Money::xof(9_007_199_254_740_993);
    assert_eq!(money.amount, 9_007_199_254_740_993);
}

#[test]
fn test_core_money_display() {
    assert_eq!(Money::xof(5000).to_text(), "5000 XOF");
}

#[test]
fn test_core_list_options_defaults_are_none() {
    let opts = ListOptions::default();
    assert_eq!(opts.limit, None);
    assert_eq!(opts.cursor, None);
}

#[test]
fn test_core_transaction_status_is_final() {
    assert!(!TransactionStatus::Pending.is_final());
    assert!(TransactionStatus::Successful.is_final());
    assert!(TransactionStatus::Failed.is_final());
    assert!(TransactionStatus::Cancelled.is_final());
    assert!(TransactionStatus::Expired.is_final());
}

#[test]
fn test_core_payment_request_builder() {
    let to = PhoneNumber::parse("+2250707070707").unwrap();
    let request = PaymentRequest::new(to, Money::xof(5000))
        .with_note("Loyer")
        .with_reference("ref-001");
    assert_eq!(request.note.as_deref(), Some("Loyer"));
    assert_eq!(request.reference.as_deref(), Some("ref-001"));
}

// ---------------------------------------------------------------------------

#[test]
fn phone_number_error_carries_the_input() {
    match PhoneNumber::parse("+225abc") {
        Err(WaveError::InvalidPhoneNumber { number }) => assert_eq!(number, "+225abc"),
        other => panic!("expected InvalidPhoneNumber, got {other:?}"),
    }
}

#[test]
fn phone_number_with_unknown_region_rejected() {
    match PhoneNumber::parse_with_region("ZZ", "07 07 07 07 07") {
        Err(WaveError::InvalidPhoneNumber { number }) => assert_eq!(number, "07 07 07 07 07"),
        other => panic!("expected InvalidPhoneNumber, got {other:?}"),
    }
}

#[test]
fn phone_number_is_normalised_to_e164() {
    let number = PhoneNumber::parse("+225 07 07 07 07 07").unwrap();
    assert_eq!(number.as_str(), "+2250707070707");
    let again = PhoneNumber::parse(number.as_str()).unwrap();
    assert_eq!(again, number);
}

#[test]
fn phone_number_clone_keeps_text() {
    let number = PhoneNumber::parse("+221771234567").unwrap();
    assert_eq!(number.clone().as_str(), "+221771234567");
}

#[test]
fn money_display_of_zero_and_large_amounts() {
    assert_eq!(Money::xof(0).to_text(), "0 XOF");
    assert_eq!(Money::xof(18_446_744_073_709_551_615).to_text(), "18446744073709551615 XOF");
    assert_eq!(Currency::XOF.code(), "XOF");
}

#[test]
fn payment_request_builder_keeps_other_fields() {
    let to = PhoneNumber::parse("+2250707070707").unwrap();
    let request = PaymentRequest::new(to.clone(), Money::xof(7500));
    assert_eq!(request.note, None);
    assert_eq!(request.reference, None);
    let request = request.with_reference("r-1").with_note("a").with_note("b");
    assert_eq!(request.to, to);
    assert_eq!(request.amount, Money::xof(7500));
    assert_eq!(request.note.as_deref(), Some("b"));
    assert_eq!(request.reference.as_deref(), Some("r-1"));
}

#[test]
fn transaction_id_keeps_its_text() {
    assert_eq!(TransactionId::new("txn_abc123").as_str(), "txn_abc123");
    assert_eq!(TransactionId::from_string("OM-1".to_string()).as_str(), "OM-1");
}

#[test]
fn error_messages_are_the_sdk_texts() {
    assert_eq!(WaveError::Network("dns".to_string()).message(), "Erreur réseau : dns");
    assert_eq!(
        WaveError::AuthFailed { provider: "wave".to_string() }.message(),
        "Authentification refusée par wave"
    );
    assert_eq!(WaveError::InsufficientFunds.message(), "Solde insuffisant");
    assert_eq!(
        WaveError::InvalidPhoneNumber { number: "abc".to_string() }.message(),
        "Numéro de téléphone invalide : abc"
    );
    assert_eq!(WaveError::Timeout { seconds: 90 }.message(), "Timeout après 90s");
    assert_eq!(
        WaveError::RateLimited { retry_after_secs: 120 }.message(),
        "Rate limit atteint, réessayer après 120s"
    );
    assert_eq!(
        WaveError::ApiError {
            provider: "mtn".to_string(),
            code: "PAYEE_NOT_FOUND".to_string(),
            message: "Payee does not exist".to_string(),
        }
        .message(),
        "Erreur API mtn [PAYEE_NOT_FOUND] : Payee does not exist"
    );
    assert_eq!(WaveError::Serialization("eof".to_string()).message(), "Erreur de sérialisation : eof");
}

#[test]
fn phone_number_and_transaction_id_conversions_keep_the_text() {
    let p = PhoneNumber::parse("+2250707070707").unwrap();
    assert_eq!(String::from(p), "+2250707070707");
    let id = TransactionId::from("txn_abc123".to_string());
    assert_eq!(id.as_str(), "txn_abc123");
    assert_eq!(id, TransactionId::new("txn_abc123"));
}
