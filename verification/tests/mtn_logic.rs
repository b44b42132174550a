use wave_rs::error::WaveError;
use wave_rs::mtn::{
    accepted_transfer, balance_query, msisdn, parse_amount, parse_msisdn, reference_id_from_bytes,
    transactions_query, transfer_body, transfer_path, BalanceReply, ListItemReply, ListReply,
    MomoStatus, PartyReply, TransferReply,
};
use wave_rs::types::{Currency, ListOptions, Money, PaymentRequest, PhoneNumber, TransactionId, TransactionStatus};

fn account() -> PhoneNumber {
    PhoneNumber::parse("+2250707070707").unwrap()
}

#[test]
fn amounts_are_whole_numbers() {
    assert_eq!(parse_amount("7500"), Ok(7500));
    assert_eq!(parse_amount(" 64000\n"), Ok(64_000));
    assert_eq!(parse_amount("+12"), Ok(12));
    assert_eq!(parse_amount("18446744073709551615"), Ok(u64::MAX));
    for bad in ["", "-5", "75.50", "18446744073709551616", "+", "1 000"] {
        match parse_amount(bad) {
            Err(WaveError::ApiError { provider, code, message }) => {
                assert_eq!(provider, "mtn");
                assert_eq!(code, "invalid-amount");
                assert_eq!(message, format!("montant non numérique retourné par l'API : '{bad}'"));
            }
            other => panic!("expected ApiError for {bad:?}, got {other:?}"),
        }
    }
}

#[test]
fn msisdn_roundtrip() {
    let phone = account();
    assert_eq!(msisdn(&phone), "2250707070707");
    assert_eq!(parse_msisdn(&msisdn(&phone)).unwrap(), phone);
    assert_eq!(parse_msisdn("+2250707070707").unwrap(), phone);
    assert!(matches!(parse_msisdn("abc"), Err(WaveError::InvalidPhoneNumber { number }) if number == "+abc"));
}

#[test]
fn transfer_body_uses_string_amount_and_msisdn() {
    let request = PaymentRequest::new(account(), Money::xof(7500)).with_reference("ref-001");
    let body = transfer_body(&request);
    assert_eq!(body.amount, "7500");
    assert_eq!(body.payee.party_id, "2250707070707");
    assert_eq!(body.payee.party_id_type, "MSISDN");
    assert_eq!(body.external_id.as_deref(), Some("ref-001"));
    assert_eq!(body.payee_note, None);
}

#[test]
fn accepted_transfer_is_pending_under_the_reference() {
    let r = accepted_transfer("0f14d0ab-9605-4a62-a9e4-5ed26688389b".to_string());
    assert_eq!(r.status, TransactionStatus::Pending);
    assert_eq!(r.provider, "mtn");
    assert_eq!(r.transaction_id.as_str(), "0f14d0ab-9605-4a62-a9e4-5ed26688389b");
}

#[test]
fn queries_use_msisdn_without_plus() {
    assert_eq!(balance_query(&account()), vec![("msisdn".to_string(), "2250707070707".to_string())]);
    let q = transactions_query(&account(), ListOptions { limit: Some(10), cursor: None });
    assert_eq!(
        q,
        vec![
            ("msisdn".to_string(), "2250707070707".to_string()),
            ("limit".to_string(), "10".to_string()),
        ]
    );
    assert_eq!(
        transfer_path(&TransactionId::new("abc")),
        "/disbursement/v1_0/transfer/abc"
    );
}

#[test]
fn balance_reply_string_amount_parsed() {
    let reply = BalanceReply { available_balance: "64000".to_string(), currency: Currency::XOF };
    assert_eq!(reply.into_money(), Ok(Money::xof(64_000)));
    let reply = BalanceReply { available_balance: "lots".to_string(), currency: Currency::XOF };
    assert!(reply.into_money().is_err());
}

fn transfer(amount: &str, status: MomoStatus, payee: Option<&str>) -> TransferReply {
    TransferReply {
        amount: amount.to_string(),
        currency: Currency::XOF,
        status,
        payee: payee.map(|p| PartyReply { party_id: p.to_string() }),
        payee_note: Some("Scolarité".to_string()),
        created_at: Some("2026-08-10T14:20:00Z".to_string()),
    }
}

#[test]
fn transfer_reply_converts() {
    let id = TransactionId::new("0f14d0ab-9605-4a62-a9e4-5ed26688389b");
    let tx = transfer("7500", MomoStatus::Successful, Some("2250707070707"))
        .into_transaction(id.clone())
        .unwrap();
    assert_eq!(tx.id, id);
    assert_eq!(tx.provider, "mtn");
    assert_eq!(tx.status, TransactionStatus::Successful);
    assert_eq!(tx.amount, Money::xof(7500));
    assert_eq!(tx.counterparty, Some(account()));
    assert_eq!(tx.note.as_deref(), Some("Scolarité"));
    assert_eq!(tx.created_at, "2026-08-10T14:20:00Z");
    let mut no_date = transfer("2000", MomoStatus::Failed, None);
    no_date.created_at = None;
    let tx = no_date.into_transaction(TransactionId::new("x")).unwrap();
    assert_eq!(tx.created_at, "");
    assert_eq!(tx.counterparty, None);
}

#[test]
fn transfer_reply_checks_payee_before_amount() {
    let bad_both = transfer("7.5", MomoStatus::Pending, Some("abc"));
    assert!(matches!(
        bad_both.into_transaction(TransactionId::new("x")),
        Err(WaveError::InvalidPhoneNumber { .. })
    ));
    let bad_amount = transfer("7.5", MomoStatus::Pending, Some("2250707070707"));
    assert!(matches!(
        bad_amount.into_transaction(TransactionId::new("x")),
        Err(WaveError::ApiError { .. })
    ));
}

#[test]
fn list_reply_uses_reference_ids() {
    let list = ListReply {
        transactions: vec![
            ListItemReply {
                reference_id: "r-1".to_string(),
                transfer: transfer("7500", MomoStatus::Successful, Some("2250707070707")),
            },
            ListItemReply {
                reference_id: "r-2".to_string(),
                transfer: transfer("2000", MomoStatus::Failed, None),
            },
        ],
    };
    let txs = list.into_transactions().unwrap();
    assert_eq!(txs[0].id, TransactionId::new("r-1"));
    assert_eq!(txs[1].status, TransactionStatus::Failed);
    assert_eq!(txs[1].amount, Money::xof(2000));
}

#[test]
fn reference_id_from_known_bytes() {
    let bytes: Vec<u8> = (0u8..16).map(|i| i.wrapping_mul(17)).collect();
    let id = reference_id_from_bytes(&bytes);
    assert_eq!(id, "00112233-4455-4677-8899-aabbccddeeff");
    let ones = [0xffu8; 16];
    assert_eq!(reference_id_from_bytes(&ones), "ffffffff-ffff-4fff-bfff-ffffffffffff");
    let zeros = [0u8; 16];
    assert_eq!(reference_id_from_bytes(&zeros), "00000000-0000-4000-8000-000000000000");
}

fn pair(name: &str, value: &str) -> (String, String) {
    (name.to_string(), value.to_string())
}

#[test]
fn mtn_calls_carry_subscription_key_and_target_environment() {
    let c = wave_rs::mtn::MtnConfig::new("sub-secrete", "user-001", "cle-secrete");
    assert_eq!(c.token_headers(), vec![pair("Ocp-Apim-Subscription-Key", "sub-secrete")]);
    assert_eq!(
        c.call_headers(),
        vec![
            pair("Ocp-Apim-Subscription-Key", "sub-secrete"),
            pair("X-Target-Environment", "mtncotedivoire"),
        ]
    );
    match c.token_credentials() {
        wave_rs::operator::Credentials::Basic { user, password } => {
            assert_eq!(user, "user-001");
            assert_eq!(password, "cle-secrete");
        }
        wave_rs::operator::Credentials::Bearer(_) => panic!("token request uses Basic"),
    }
}

#[test]
fn other_operators_credentials() {
    let moov = wave_rs::moov::MoovConfig::new("cle-moov");
    assert_eq!(moov.auth_headers(), vec![pair("X-API-Key", "cle-moov")]);
    match wave_rs::wave::WaveConfig::new("wave-key", "M1").credentials() {
        wave_rs::operator::Credentials::Bearer(t) => assert_eq!(t, "wave-key"),
        wave_rs::operator::Credentials::Basic { .. } => panic!("Wave uses a Bearer key"),
    }
    match wave_rs::orange::OrangeConfig::new("client-001", "secret").token_credentials() {
        wave_rs::operator::Credentials::Basic { user, password } => {
            assert_eq!(user, "client-001");
            assert_eq!(password, "secret");
        }
        wave_rs::operator::Credentials::Bearer(_) => panic!("token request uses Basic"),
    }
    match wave_rs::operator::bearer("tok") {
        wave_rs::operator::Credentials::Bearer(t) => assert_eq!(t, "tok"),
        wave_rs::operator::Credentials::Basic { .. } => panic!("bearer gives a Bearer"),
    }
}

#[test]
fn reference_id_from_words_writes_big_endian_bytes_with_v4_bits() {
    assert_eq!(
        wave_rs::mtn::reference_id_from_words(0x0123456789abcdef, 0xfedcba9876543210),
        "01234567-89ab-4def-bedc-ba9876543210"
    );
    assert_eq!(
        wave_rs::mtn::reference_id_from_words(0, 0),
        "00000000-0000-4000-8000-000000000000"
    );
}
