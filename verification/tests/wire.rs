use std::time::Duration;

use wave_rs::error::WaveError;
use wave_rs::operator::{
    base_url_override, collect_transactions, error_from_response, list_query, reference_header,
    require_setting, sandbox_enabled, transport_error, ErrorBody, Operator,
};
use wave_rs::types::{Currency, ListOptions, Money, PaymentRequest, PhoneNumber, TransactionId, TransactionStatus};
use wave_rs::{moov, orange, wave};

fn account() -> PhoneNumber {
    PhoneNumber::parse("+2250707070707").unwrap()
}

fn body(code: &str, message: &str) -> Option<ErrorBody> {
    Some(ErrorBody { code: code.to_string(), message: message.to_string() })
}

#[test]
fn operator_names_and_currency() {
    assert_eq!(Operator::Wave.name(), "wave");
    assert_eq!(Operator::Orange.name(), "orange");
    assert_eq!(Operator::Mtn.name(), "mtn");
    assert_eq!(Operator::Moov.name(), "moov");
    for op in [Operator::Wave, Operator::Orange, Operator::Mtn, Operator::Moov] {
        assert_eq!(Operator::from_name(op.name()), Some(op));
        assert_eq!(op.currency(), Currency::XOF);
    }
    assert_eq!(Operator::from_name("Wave"), None);
    assert_eq!(Operator::from_name(""), None);
}

#[test]
fn error_401_and_403_are_auth_failures() {
    for status in [401u16, 403] {
        let e = error_from_response(Operator::Orange, status, 90, None, body("60019", "x"));
        assert_eq!(e, WaveError::AuthFailed { provider: "orange".to_string() });
    }
}

#[test]
fn error_429_reads_retry_after() {
    let e = error_from_response(Operator::Wave, 429, 90, Some("30"), None);
    assert_eq!(e, WaveError::RateLimited { retry_after_secs: 30 });
    let e = error_from_response(Operator::Mtn, 429, 90, Some("120"), None);
    assert_eq!(e, WaveError::RateLimited { retry_after_secs: 120 });
}

#[test]
fn error_429_without_readable_retry_after_waits_60s() {
    assert_eq!(
        error_from_response(Operator::Moov, 429, 90, None, None),
        WaveError::RateLimited { retry_after_secs: 60 }
    );
    assert_eq!(
        error_from_response(Operator::Moov, 429, 90, Some("soon"), None),
        WaveError::RateLimited { retry_after_secs: 60 }
    );
    assert_eq!(
        error_from_response(Operator::Moov, 429, 90, Some(" 15"), None),
        WaveError::RateLimited { retry_after_secs: 60 }
    );
}

#[test]
fn error_insufficient_funds_code_per_operator() {
    let cases = [
        (Operator::Wave, "insufficient-funds"),
        (Operator::Orange, "60019"),
        (Operator::Mtn, "NOT_ENOUGH_FUNDS"),
        (Operator::Moov, "INSUFFICIENT_BALANCE"),
    ];
    for (op, code) in cases {
        assert_eq!(error_from_response(op, 400, 90, None, body(code, "m")), WaveError::InsufficientFunds);
    }
    // Another operator's code is an ordinary API error.
    assert!(matches!(
        error_from_response(Operator::Wave, 400, 90, None, body("60019", "m")),
        WaveError::ApiError { .. }
    ));
}

#[test]
fn error_402_is_insufficient_funds_for_every_operator() {
    for op in [Operator::Wave, Operator::Orange, Operator::Mtn, Operator::Moov] {
        assert_eq!(error_from_response(op, 402, 90, None, None), WaveError::InsufficientFunds);
        assert_eq!(
            error_from_response(op, 402, 90, None, body("PAYMENT_REQUIRED", "m")),
            WaveError::InsufficientFunds
        );
    }
}

#[test]
fn error_408_is_a_timeout_after_the_configured_seconds() {
    for op in [Operator::Wave, Operator::Orange, Operator::Mtn, Operator::Moov] {
        assert_eq!(error_from_response(op, 408, 90, None, None), WaveError::Timeout { seconds: 90 });
    }
    assert_eq!(
        error_from_response(Operator::Mtn, 408, 30, None, body("X", "m")),
        WaveError::Timeout { seconds: 30 }
    );
}

#[test]
fn error_api_error_keeps_code_and_message() {
    let e = error_from_response(Operator::Mtn, 404, 90, None, body("PAYEE_NOT_FOUND", "Payee does not exist on the MoMo network"));
    assert_eq!(
        e,
        WaveError::ApiError {
            provider: "mtn".to_string(),
            code: "PAYEE_NOT_FOUND".to_string(),
            message: "Payee does not exist on the MoMo network".to_string(),
        }
    );
}

#[test]
fn error_without_json_body_reports_the_status() {
    let e = error_from_response(Operator::Wave, 502, 90, None, None);
    assert_eq!(
        e,
        WaveError::ApiError {
            provider: "wave".to_string(),
            code: "502".to_string(),
            message: "réponse d'erreur non JSON".to_string(),
        }
    );
}

#[test]
fn transport_errors() {
    assert_eq!(transport_error(true, 2, "t".to_string()), WaveError::Timeout { seconds: 2 });
    assert_eq!(transport_error(false, 2, "dns".to_string()), WaveError::Network("dns".to_string()));
}

#[test]
fn required_settings() {
    assert_eq!(require_setting(Operator::Wave, "WAVE_API_KEY", Some(" k ")), Ok(" k ".to_string()));
    let missing = WaveError::ApiError {
        provider: "wave".to_string(),
        code: "config".to_string(),
        message: "variable d'environnement WAVE_API_KEY manquante".to_string(),
    };
    assert_eq!(require_setting(Operator::Wave, "WAVE_API_KEY", None), Err(missing.clone()));
    assert_eq!(require_setting(Operator::Wave, "WAVE_API_KEY", Some(" \t\n")), Err(missing));
}

#[test]
fn sandbox_is_the_default() {
    assert!(sandbox_enabled(None));
    assert!(sandbox_enabled(Some("true")));
    assert!(sandbox_enabled(Some("")));
    assert!(sandbox_enabled(Some("FALSE")));
    assert!(!sandbox_enabled(Some("false")));
    assert!(!sandbox_enabled(Some(" 0 ")));
}

#[test]
fn base_url_override_is_trimmed() {
    assert_eq!(base_url_override(Some(" http://localhost:8080// ")), Some("http://localhost:8080".to_string()));
    assert_eq!(base_url_override(Some("   ")), None);
    assert_eq!(base_url_override(None), None);
}

#[test]
fn wave_config_from_settings() {
    let c = wave::WaveConfig::from_settings(Some("k"), Some("m"), None, None).unwrap();
    assert_eq!(c.api_key, "k");
    assert_eq!(c.merchant_id, "m");
    assert_eq!(c.base_url, wave::SANDBOX_BASE_URL);
    assert_eq!(c.timeout, Duration::from_secs(90));
    let c = wave::WaveConfig::from_settings(Some("k"), Some("m"), Some("false"), None).unwrap();
    assert_eq!(c.base_url, wave::DEFAULT_BASE_URL);
    let c = wave::WaveConfig::from_settings(Some("k"), Some("m"), Some("false"), Some("http://mock/")).unwrap();
    assert_eq!(c.base_url, "http://mock");
    match wave::WaveConfig::from_settings(Some("k"), None, None, None) {
        Err(WaveError::ApiError { message, .. }) => assert!(message.contains("WAVE_MERCHANT_ID")),
        _ => panic!("expected a config error"),
    }
}

#[test]
fn mtn_config_from_settings_targets_sandbox() {
    let c = wave_rs::mtn::MtnConfig::from_settings(Some("s"), Some("u"), Some("k"), None, None).unwrap();
    assert_eq!(c.base_url, wave_rs::mtn::SANDBOX_BASE_URL);
    assert_eq!(c.target_environment, "sandbox");
    let c = wave_rs::mtn::MtnConfig::from_settings(Some("s"), Some("u"), Some("k"), Some("0"), None).unwrap();
    assert_eq!(c.base_url, wave_rs::mtn::DEFAULT_BASE_URL);
    assert_eq!(c.target_environment, "mtncotedivoire");
    assert!(wave_rs::mtn::MtnConfig::from_settings(Some("s"), None, Some("k"), None, None).is_err());
}

#[test]
fn orange_and_moov_config_from_settings() {
    let c = orange::OrangeConfig::from_settings(Some("c"), Some("s"), None, None).unwrap();
    assert_eq!(c.base_url, orange::SANDBOX_BASE_URL);
    assert!(orange::OrangeConfig::from_settings(Some("c"), Some(""), None, None).is_err());
    let c = moov::MoovConfig::from_settings(Some("k"), Some("false"), None).unwrap();
    assert_eq!(c.base_url, moov::DEFAULT_BASE_URL);
}

#[test]
fn config_builders_replace_one_field() {
    let c = wave::WaveConfig::new("k", "m")
        .with_base_url("http://mock")
        .with_timeout(Duration::from_secs(2));
    assert_eq!(c.base_url, "http://mock");
    assert_eq!(c.timeout, Duration::from_secs(2));
    assert_eq!(c.api_key, "k");
    let c = wave_rs::mtn::MtnConfig::new("s", "u", "k").with_target_environment("sandbox");
    assert_eq!(c.target_environment, "sandbox");
    assert_eq!(c.base_url, wave_rs::mtn::DEFAULT_BASE_URL);
}

#[test]
fn debug_text_shows_public_fields() {
    let c = wave::WaveConfig::new("secret", "m-001");
    assert_eq!(
        c.redacted_debug(),
        "WaveConfig { api_key: \"***\", merchant_id: \"m-001\", base_url: \"https://api.wave.com\", timeout: 90s }"
    );
    let a = orange::OrangeConfig::new("id", "s1").redacted_debug();
    let b = orange::OrangeConfig::new("id", "s2").redacted_debug();
    assert_eq!(a, b);
}

#[test]
fn urls_and_queries() {
    let c = wave::WaveConfig::new("k", "m").with_base_url("http://mock");
    assert_eq!(c.url(wave::PAYOUTS_PATH), "http://mock/v1/payouts");
    assert_eq!(wave::transaction_path(&TransactionId::new("txn_1")), "/v1/transactions/txn_1");
    assert_eq!(moov::transaction_path(&TransactionId::new("mv_1")), "/api/v1/transactions/mv_1");
    assert_eq!(orange::transaction_path(&TransactionId::new("OM-1")), "/omoney/v1/transactions/OM-1");
    assert_eq!(
        wave::balance_query(&account()),
        vec![("account".to_string(), "+2250707070707".to_string())]
    );
    assert_eq!(
        orange::balance_query(&account()),
        vec![("msisdn".to_string(), "+2250707070707".to_string())]
    );
    let opts = ListOptions { limit: Some(10), cursor: Some("cur_001".to_string()) };
    assert_eq!(
        wave::transactions_query(&account(), opts),
        vec![
            ("account".to_string(), "+2250707070707".to_string()),
            ("limit".to_string(), "10".to_string()),
            ("cursor".to_string(), "cur_001".to_string()),
        ]
    );
    assert_eq!(
        list_query("msisdn", "x".to_string(), ListOptions::default()),
        vec![("msisdn".to_string(), "x".to_string())]
    );
}

#[test]
fn idempotency_headers() {
    let request = PaymentRequest::new(account(), Money::xof(5000)).with_reference("ref-001");
    assert_eq!(
        reference_header(Operator::Wave, &request),
        Some(("Idempotency-Key".to_string(), "ref-001".to_string()))
    );
    assert_eq!(
        reference_header(Operator::Orange, &request),
        Some(("X-Reference-Id".to_string(), "ref-001".to_string()))
    );
    assert_eq!(reference_header(Operator::Mtn, &request), None);
    let plain = PaymentRequest::new(account(), Money::xof(5000));
    assert_eq!(reference_header(Operator::Moov, &plain), None);
}

#[test]
fn payment_bodies() {
    let request = PaymentRequest::new(account(), Money::xof(12000)).with_note("Abonnement Canal");
    let b = wave::WaveConfig::new("k", "m-001").payout_body(&request);
    assert_eq!(b.merchant_id, "m-001");
    assert_eq!(b.recipient, "+2250707070707");
    assert_eq!(b.amount, 12000);
    assert_eq!(b.note.as_deref(), Some("Abonnement Canal"));
    assert_eq!(b.client_reference, None);
    let b = moov::payment_body(&request);
    assert_eq!(b.destination, "+2250707070707");
    assert_eq!(b.message.as_deref(), Some("Abonnement Canal"));
    let b = orange::payment_body(&request);
    assert_eq!(b.receiver_msisdn, "+2250707070707");
}

#[test]
fn payment_replies() {
    let r = wave::PayoutReply { id: "txn_wave_001".to_string(), status: TransactionStatus::Pending }.into_response();
    assert_eq!(r.transaction_id, TransactionId::new("txn_wave_001"));
    assert_eq!(r.provider, "wave");
    let r = orange::PaymentReply { transaction_id: "OM-2026-001".to_string(), status: orange::OrangeStatus::Pending }.into_response();
    assert_eq!(r.status, TransactionStatus::Pending);
    assert_eq!(r.provider, "orange");
    let r = moov::PaymentReply { id: "mv_txn_001".to_string(), status: moov::MoovStatus::Completed }.into_response();
    assert_eq!(r.status, TransactionStatus::Successful);
    assert_eq!(r.provider, "moov");
}

#[test]
fn balance_replies() {
    assert_eq!(wave::BalanceReply { amount: 150000, currency: Currency::XOF }.into_money(), Money::xof(150_000));
    assert_eq!(orange::BalanceReply { balance: 82500, currency: Currency::XOF }.into_money(), Money::xof(82_500));
    assert_eq!(moov::BalanceReply { available: 41000, currency: Currency::XOF }.into_money(), Money::xof(41_000));
}

fn wave_reply(id: &str, counterparty: Option<&str>) -> wave::TransactionReply {
    wave::TransactionReply {
        id: id.to_string(),
        status: TransactionStatus::Successful,
        amount: 5000,
        currency: Currency::XOF,
        counterparty: counterparty.map(|c| c.to_string()),
        note: Some("Loyer".to_string()),
        created_at: "2026-08-09T12:00:00Z".to_string(),
    }
}

#[test]
fn wave_transaction_reply_converts() {
    let list = wave::ListReply {
        items: vec![wave_reply("txn_wave_001", Some("+2250707070707")), wave_reply("txn_2", None)],
        next_cursor: None,
    };
    let txs = list.into_transactions().unwrap();
    assert_eq!(txs.len(), 2);
    assert_eq!(txs[0].id, TransactionId::new("txn_wave_001"));
    assert_eq!(txs[0].provider, "wave");
    assert_eq!(txs[0].counterparty, Some(account()));
    assert_eq!(txs[0].note.as_deref(), Some("Loyer"));
    assert_eq!(txs[1].counterparty, None);
}

#[test]
fn listing_stops_at_first_bad_counterparty() {
    let replies = vec![
        wave_reply("a", Some("+2250707070707")),
        wave_reply("b", Some("pas-un-numero")),
        wave_reply("c", Some("aussi-faux")),
    ];
    match collect_transactions(replies) {
        Err(WaveError::InvalidPhoneNumber { number }) => assert_eq!(number, "pas-un-numero"),
        other => panic!("expected InvalidPhoneNumber, got {other:?}"),
    }
    let empty: Vec<wave::TransactionReply> = Vec::new();
    assert_eq!(collect_transactions(empty), Ok(Vec::new()));
}

#[test]
fn orange_and_moov_transaction_replies_map_status() {
    let reply = orange::TransactionReply {
        transaction_id: "OM-2026-001".to_string(),
        status: orange::OrangeStatus::Success,
        amount: 7500,
        currency: Currency::XOF,
        peer_msisdn: Some("+2250707070707".to_string()),
        note: Some("Facture CIE".to_string()),
        created_at: "t".to_string(),
    };
    let txs = orange::ListReply { transactions: vec![reply], next_cursor: None }.into_transactions().unwrap();
    assert_eq!(txs[0].status, TransactionStatus::Successful);
    assert_eq!(txs[0].provider, "orange");
    let reply = moov::TransactionReply {
        id: "mv_txn_001".to_string(),
        status: moov::MoovStatus::Expired,
        amount: 12000,
        currency: Currency::XOF,
        destination: None,
        message: Some("Abonnement Canal".to_string()),
        created_at: "t".to_string(),
    };
    let txs = moov::ListReply { items: vec![reply], next_cursor: None }.into_transactions().unwrap();
    assert_eq!(txs[0].status, TransactionStatus::Expired);
    assert_eq!(txs[0].note.as_deref(), Some("Abonnement Canal"));
}

#[test]
fn status_mappings_cover_every_variant() {
    assert_eq!(TransactionStatus::from(orange::OrangeStatus::Failed), TransactionStatus::Failed);
    assert_eq!(TransactionStatus::from(orange::OrangeStatus::Cancelled), TransactionStatus::Cancelled);
    assert_eq!(TransactionStatus::from(orange::OrangeStatus::Expired), TransactionStatus::Expired);
    assert_eq!(TransactionStatus::from(moov::MoovStatus::Pending), TransactionStatus::Pending);
    assert_eq!(TransactionStatus::from(moov::MoovStatus::Failed), TransactionStatus::Failed);
    assert_eq!(TransactionStatus::from(moov::MoovStatus::Cancelled), TransactionStatus::Cancelled);
}
