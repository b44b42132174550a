use wave_rs::cli::{
    format_money, follow_up_hint, parse_phone, provider_catalog, select_provider, setup_hint,
    status_label, transaction_cells,
};
use wave_rs::dashboard::{check_amount, http_status, provider_statuses, unavailable_provider};
use wave_rs::error::WaveError;
use wave_rs::operator::Operator;
use wave_rs::text::{parse_u64, trim, trim_end_char, trim_start_char, u64_to_decimal};
use wave_rs::token::TokenCache;
use wave_rs::types::{Money, PaymentResponse, PhoneNumber, Transaction, TransactionId, TransactionStatus};

const SEC: u64 = 1_000_000_000;

#[test]
fn token_is_reused_until_expiry() {
    let mut cache = TokenCache::new();
    assert_eq!(cache.current(0), None);
    assert_eq!(cache.store("tok".to_string(), 3600, 10 * SEC), "tok");
    assert_eq!(cache.current(10 * SEC), Some("tok".to_string()));
    assert_eq!(cache.current(3549 * SEC), Some("tok".to_string()));
    assert_eq!(cache.current(3550 * SEC), None);
}

#[test]
fn short_lived_token_is_never_reused() {
    let mut cache = TokenCache::new();
    cache.store("tok".to_string(), 30, 5 * SEC);
    assert_eq!(cache.current(5 * SEC), None);
    cache.store("tok".to_string(), 60, 5 * SEC);
    assert_eq!(cache.current(5 * SEC), None);
}

#[test]
fn status_401_drops_the_token() {
    let mut cache = TokenCache::new();
    cache.store("tok".to_string(), 3600, 0);
    cache.observe_status(200);
    assert_eq!(cache.current(1), Some("tok".to_string()));
    cache.observe_status(401);
    assert_eq!(cache.current(1), None);
    cache.store("tok2".to_string(), 3600, 2);
    cache.invalidate();
    assert_eq!(cache.current(3), None);
}

#[test]
fn huge_lifetime_does_not_overflow() {
    let mut cache = TokenCache::new();
    cache.store("tok".to_string(), u64::MAX, u64::MAX);
    assert_eq!(cache.current(u64::MAX), Some("tok".to_string()));
}

#[test]
fn decimal_text_roundtrip() {
    for n in [0u64, 7, 10, 999, 1000, 9_007_199_254_740_993, u64::MAX] {
        let s = u64_to_decimal(n);
        assert_eq!(s, n.to_string());
        assert_eq!(parse_u64(&s), Some(n));
    }
    assert_eq!(parse_u64("+0"), Some(0));
    assert_eq!(parse_u64("007"), Some(7));
    assert_eq!(parse_u64(""), None);
    assert_eq!(parse_u64("+"), None);
    assert_eq!(parse_u64("-1"), None);
    assert_eq!(parse_u64("1e3"), None);
}

#[test]
fn trimming() {
    assert_eq!(trim(" \t a b \u{3000}\n"), "a b");
    assert_eq!(trim("\u{a0}"), "");
    assert_eq!(trim_end_char("http://x///", '/'), "http://x");
    assert_eq!(trim_start_char("++225", '+'), "225");
    assert_eq!(trim_start_char("225", '+'), "225");
}

#[test]
fn money_is_grouped_by_thousands() {
    assert_eq!(format_money(&Money::xof(5000)), "5 000 XOF");
    assert_eq!(format_money(&Money::xof(0)), "0 XOF");
    assert_eq!(format_money(&Money::xof(999)), "999 XOF");
    assert_eq!(format_money(&Money::xof(1_234_567)), "1 234 567 XOF");
    assert_eq!(format_money(&Money::xof(150_000)), "150 000 XOF");
}

#[test]
fn catalog_lists_the_four_providers() {
    let catalog = provider_catalog();
    let names: Vec<&str> = catalog.iter().map(|p| p.name).collect();
    assert_eq!(names, vec!["wave", "orange", "mtn", "moov"]);
    assert!(catalog.iter().all(|p| p.available && p.currency == "XOF"));
}

#[test]
fn provider_selection() {
    assert_eq!(select_provider("mtn"), Ok(Operator::Mtn));
    assert_eq!(
        select_provider("paypal"),
        Err("provider inconnu : 'paypal' — disponibles : wave, orange, mtn, moov".to_string())
    );
    assert_eq!(setup_hint(Operator::Moov), "MOOV_API_KEY");
}

#[test]
fn phone_messages() {
    assert!(parse_phone("+2250707070707").is_ok());
    assert_eq!(
        parse_phone("12").unwrap_err(),
        "numéro de téléphone invalide : '12' — format attendu E.164, ex. +2250700000000"
    );
    assert_eq!(
        wave_rs::dashboard::parse_phone("12").unwrap_err(),
        "numéro invalide : '12' (format E.164 attendu)"
    );
}

#[test]
fn status_labels_and_follow_up() {
    assert_eq!(status_label(TransactionStatus::Pending), "en attente");
    assert_eq!(status_label(TransactionStatus::Expired), "expirée");
    let pending = PaymentResponse {
        transaction_id: TransactionId::new("txn_1"),
        status: TransactionStatus::Pending,
        provider: "wave".to_string(),
    };
    assert_eq!(
        follow_up_hint(&pending).as_deref(),
        Some("Paiement en attente de confirmation — suivre avec : wave status --provider wave --id txn_1")
    );
    let done = PaymentResponse { status: TransactionStatus::Successful, ..pending };
    assert_eq!(follow_up_hint(&done), None);
}

#[test]
fn transaction_row() {
    let tx = Transaction {
        id: TransactionId::new("txn_1"),
        provider: "wave".to_string(),
        status: TransactionStatus::Failed,
        amount: Money::xof(12_500),
        counterparty: Some(PhoneNumber::parse("+2250707070707").unwrap()),
        note: None,
        created_at: "2026-08-09T12:00:00Z".to_string(),
    };
    assert_eq!(
        transaction_cells(&tx),
        vec!["txn_1", "échouée", "12 500 XOF", "+2250707070707", "—", "2026-08-09T12:00:00Z"]
    );
}

#[test]
fn dashboard_decisions() {
    assert_eq!(http_status(&WaveError::InvalidPhoneNumber { number: "x".to_string() }), 400);
    assert_eq!(http_status(&WaveError::InsufficientFunds), 409);
    assert_eq!(http_status(&WaveError::AuthFailed { provider: "mtn".to_string() }), 502);
    assert_eq!(http_status(&WaveError::RateLimited { retry_after_secs: 5 }), 429);
    assert_eq!(http_status(&WaveError::Timeout { seconds: 90 }), 502);
    assert_eq!(http_status(&WaveError::Network("x".to_string())), 502);
    assert_eq!(check_amount(0), Err("le montant doit être strictement positif".to_string()));
    assert_eq!(check_amount(1), Ok(()));
    let statuses = provider_statuses(&vec![Operator::Mtn]);
    let available: Vec<bool> = statuses.iter().map(|p| p.available).collect();
    assert_eq!(available, vec![false, false, true, false]);
    assert_eq!(
        unavailable_provider("orange"),
        "provider 'orange' inconnu ou non configuré (credentials manquants dans .env)"
    );
}
