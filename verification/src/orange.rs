//! The Orange Money (Côte d'Ivoire) operator.
//!
//! Orange authenticates with OAuth2 *client credentials*: `POST
//! /oauth/v3/token` (Basic auth `client_id:client_secret`) answers a Bearer
//! token of limited lifetime, kept in a [`crate::token::TokenCache`] and
//! reused until it expires (with a safety margin); a `401` from the API drops
//! it. Statuses are upper case (`SUCCESS` for a successful payment), errors
//! `{code, description}` with numeric codes (`60019` for missing funds).

use std::time::Duration;
use vstd::prelude::*;

use crate::error::WaveError;
use crate::operator::{
    build_transaction, parse_counterparty, collect_transactions, copy_opt, basic, Credentials, debug_duration, duration_debug, shown, debug_str,
    debug_struct, debug_struct_text, describes, duration_from_secs, join, opt_string, opt_text,
    base_url_override, base_url_override_spec, counterparty_ok, bad_counterparty, list_query,
    list_query_spec, pairs_view, payment_response, require_setting, sandbox_enabled,
    sandbox_requested, setting_given, whole_seconds, IntoTransaction, Operator,
    DEFAULT_TIMEOUT_SECS,
};
use crate::types::{
    Currency, ListOptions, Money, PaymentRequest, PaymentResponse, PhoneNumber, Transaction,
    TransactionId, TransactionStatus,
};

verus! {

broadcast use vstd::string::group_string_axioms;

/// Base URL of the production API.
pub const DEFAULT_BASE_URL: &'static str = "https://api.orange.com";

/// Base URL of the sandbox.
pub const SANDBOX_BASE_URL: &'static str = "https://api.sandbox.orange.com";

pub const TOKEN_PATH: &'static str = "/oauth/v3/token";

pub const PAYMENTS_PATH: &'static str = "/omoney/v1/payments";

pub const BALANCE_PATH: &'static str = "/omoney/v1/balance";

pub const TRANSACTIONS_PATH: &'static str = "/omoney/v1/transactions";

/// Configuration of the Orange Money provider.
#[derive(Clone)]
pub struct OrangeConfig {
    pub client_id: String,
    pub client_secret: String,
    /// Base URL: overridden in the sandbox and against local mocks.
    pub base_url: String,
    /// Global HTTP timeout (90 s by default: users confirm slowly).
    pub timeout: Duration,
}

impl OrangeConfig {
    pub fn new(client_id: &str, client_secret: &str) -> (c: OrangeConfig)
        ensures
            c.client_id@ == client_id@,
            c.client_secret@ == client_secret@,
            c.base_url@ == DEFAULT_BASE_URL@,
            c.timeout == whole_seconds(DEFAULT_TIMEOUT_SECS),
    {
        OrangeConfig {
            client_id: client_id.to_string(),
            client_secret: client_secret.to_string(),
            base_url: DEFAULT_BASE_URL.to_string(),
            timeout: duration_from_secs(DEFAULT_TIMEOUT_SECS),
        }
    }

    /// The configuration that the settings `ORANGE_CLIENT_ID`,
    /// `ORANGE_CLIENT_SECRET`, `ORANGE_SANDBOX` and `ORANGE_BASE_URL` describe
    /// (`None` for an unset or unreadable variable): sandbox by default,
    /// `ORANGE_BASE_URL` above everything.
    pub fn from_settings(
        client_id: Option<&str>,
        client_secret: Option<&str>,
        sandbox: Option<&str>,
        base_url: Option<&str>,
    ) -> (r: Result<OrangeConfig, WaveError>)
        ensures
            match r {
                Ok(c) => {
                    &&& setting_given(opt_text(client_id)) && setting_given(opt_text(client_secret))
                    &&& opt_text(client_id) == Some(c.client_id@)
                    &&& opt_text(client_secret) == Some(c.client_secret@)
                    &&& c.timeout == whole_seconds(DEFAULT_TIMEOUT_SECS)
                    &&& c.base_url@ == match base_url_override_spec(opt_text(base_url)) {
                        Some(u) => u,
                        None => if sandbox_requested(opt_text(sandbox)) {
                            SANDBOX_BASE_URL@
                        } else {
                            DEFAULT_BASE_URL@
                        },
                    }
                },
                Err(e) => if !setting_given(opt_text(client_id)) {
                    crate::error::is_api_error(
                        e,
                        "orange"@,
                        "config"@,
                        crate::operator::missing_setting_message("ORANGE_CLIENT_ID"@),
                    )
                } else {
                    !setting_given(opt_text(client_secret)) && crate::error::is_api_error(
                        e,
                        "orange"@,
                        "config"@,
                        crate::operator::missing_setting_message("ORANGE_CLIENT_SECRET"@),
                    )
                },
            },
    {
        let client_id = require_setting(Operator::Orange, "ORANGE_CLIENT_ID", client_id)?;
        let client_secret = require_setting(Operator::Orange, "ORANGE_CLIENT_SECRET", client_secret)?;
        let mut config = OrangeConfig::new(client_id.as_str(), client_secret.as_str());
        if sandbox_enabled(sandbox) {
            config.base_url = SANDBOX_BASE_URL.to_string();
        }
        if let Some(url) = base_url_override(base_url) {
            config.base_url = url;
        }
        Ok(config)
    }

    pub fn with_base_url(self, base_url: &str) -> (c: OrangeConfig)
        ensures
            c.base_url@ == base_url@,
            c.client_id == self.client_id,
            c.client_secret == self.client_secret,
            c.timeout == self.timeout,
    {
        OrangeConfig { base_url: base_url.to_string(), ..self }
    }

    pub fn with_timeout(self, timeout: Duration) -> (c: OrangeConfig)
        ensures
            c.timeout == timeout,
            c.client_id == self.client_id,
            c.client_secret == self.client_secret,
            c.base_url == self.base_url,
    {
        OrangeConfig { timeout, ..self }
    }

    /// The debug text of the configuration, given that of its timeout. The
    /// client secret is written `***`.
    pub open spec fn debug_text(self, timeout_text: Seq<char>) -> Seq<char> {
        debug_struct_text(
            "OrangeConfig"@,
            seq![
                ("client_id"@, shown(self.client_id@)),
                ("client_secret"@, shown("***"@)),
                ("base_url"@, shown(self.base_url@)),
                ("timeout"@, timeout_text),
            ],
        )
    }

    /// What `{:?}` shows of the configuration: the client secret never appears.
    pub fn redacted_debug(&self) -> (r: String)
        ensures
            r@ == self.debug_text(duration_debug(self.timeout)),
    {
        let timeout_text = debug_duration(&self.timeout);
        let mut fields: Vec<(String, String)> = Vec::new();
        fields.push(("client_id".to_string(), debug_str(self.client_id.as_str())));
        fields.push(("client_secret".to_string(), debug_str("***")));
        fields.push(("base_url".to_string(), debug_str(self.base_url.as_str())));
        fields.push(("timeout".to_string(), timeout_text));
        let r = debug_struct("OrangeConfig", &fields);
        assert(pairs_view(fields@) =~= seq![
            ("client_id"@, shown(self.client_id@)),
            ("client_secret"@, shown("***"@)),
            ("base_url"@, shown(self.base_url@)),
            ("timeout"@, timeout_text@),
        ]);
        assert(r@ == self.debug_text(timeout_text@));
        r
    }

    /// The credentials of a token request: the client id and secret in
    /// HTTP Basic. Other calls carry the token as a Bearer.
    pub fn token_credentials(&self) -> (c: Credentials)
        ensures
            c matches Credentials::Basic { user, password } && user@ == self.client_id@
                && password@ == self.client_secret@,
    {
        basic(self.client_id.as_str(), self.client_secret.as_str())
    }

    /// The full URL of an API path.
    pub fn url(&self, path: &str) -> (r: String)
        ensures
            r@ == self.base_url@ + path@,
    {
        join(self.base_url.as_str(), path)
    }

}

/// Lemma: the debug text of a configuration does not depend on its client
/// secret: two configurations that differ only there show the same
/// `redacted_debug` text.
pub proof fn lemma_debug_ignores_client_secret(a: OrangeConfig, b: OrangeConfig)
    requires
        a.client_id@ == b.client_id@,
        a.base_url@ == b.base_url@,
        a.timeout == b.timeout,
    ensures
        a.debug_text(duration_debug(a.timeout)) == b.debug_text(duration_debug(b.timeout)),
{
}

/// Path of one transaction.
pub fn transaction_path(id: &TransactionId) -> (r: String)
    ensures
        r@ == "/omoney/v1/transactions/"@ + id@,
{
    join("/omoney/v1/transactions/", id.as_str())
}

/// Query of a balance request.
pub fn balance_query(account: &PhoneNumber) -> (q: Vec<(String, String)>)
    ensures
        pairs_view(q@) == seq![("msisdn"@, account@)],
{
    let mut q: Vec<(String, String)> = Vec::new();
    q.push(("msisdn".to_string(), account.as_str().to_string()));
    assert(pairs_view(q@) =~= seq![("msisdn"@, account@)]);
    q
}

/// Query of a transaction listing.
pub fn transactions_query(account: &PhoneNumber, opts: ListOptions) -> (q: Vec<(String, String)>)
    ensures
        pairs_view(q@) == list_query_spec("msisdn"@, account@, opts.limit, opt_string(opts.cursor)),
{
    list_query("msisdn", account.as_str().to_string(), opts)
}

/// Status in Orange's spelling.
#[derive(Debug, Clone, Copy, PartialEq, Eq, Structural)]
pub enum OrangeStatus {
    Pending,
    Success,
    Failed,
    Cancelled,
    Expired,
}

/// The SDK status of an Orange status: `SUCCESS` is a successful payment.
pub open spec fn orange_status(s: OrangeStatus) -> TransactionStatus {
    match s {
        OrangeStatus::Pending => TransactionStatus::Pending,
        OrangeStatus::Success => TransactionStatus::Successful,
        OrangeStatus::Failed => TransactionStatus::Failed,
        OrangeStatus::Cancelled => TransactionStatus::Cancelled,
        OrangeStatus::Expired => TransactionStatus::Expired,
    }
}

/// Law: the SDK status of an Orange status names the same outcome:
/// `PENDING` is the one status that stays pending, `SUCCESS` the one that
/// counts as paid, and `FAILED`, `CANCELLED`, `EXPIRED` their namesakes;
/// distinct Orange statuses give distinct SDK statuses.
pub proof fn lemma_orange_status_meaning(s: OrangeStatus, t: OrangeStatus)
    ensures
        (orange_status(s) == TransactionStatus::Pending) <==> (s == OrangeStatus::Pending),
        (orange_status(s) == TransactionStatus::Successful) <==> (s == OrangeStatus::Success),
        (orange_status(s) == TransactionStatus::Failed) <==> (s == OrangeStatus::Failed),
        (orange_status(s) == TransactionStatus::Cancelled) <==> (s == OrangeStatus::Cancelled),
        (orange_status(s) == TransactionStatus::Expired) <==> (s == OrangeStatus::Expired),
        orange_status(s) == orange_status(t) ==> s == t,
{
}

impl From<OrangeStatus> for TransactionStatus {
    fn from(status: OrangeStatus) -> (r: TransactionStatus) {
        match status {
            OrangeStatus::Pending => TransactionStatus::Pending,
            OrangeStatus::Success => TransactionStatus::Successful,
            OrangeStatus::Failed => TransactionStatus::Failed,
            OrangeStatus::Cancelled => TransactionStatus::Cancelled,
            OrangeStatus::Expired => TransactionStatus::Expired,
        }
    }
}

impl vstd::std_specs::convert::FromSpecImpl<OrangeStatus> for TransactionStatus {
    open spec fn obeys_from_spec() -> bool {
        true
    }

    open spec fn from_spec(v: OrangeStatus) -> TransactionStatus {
        orange_status(v)
    }
}

/// Body of `POST /omoney/v1/payments`.
#[derive(Debug, Clone, PartialEq, Eq)]
pub struct PaymentBody {
    pub receiver_msisdn: String,
    pub amount: u64,
    pub currency: Currency,
    pub note: Option<String>,
    pub reference: Option<String>,
}

/// The body of a payment request for `request`.
pub fn payment_body(request: &PaymentRequest) -> (b: PaymentBody)
    ensures
        b.receiver_msisdn@ == request.to@,
        b.amount == request.amount.amount,
        b.currency == request.amount.currency,
        opt_string(b.note) == opt_string(request.note),
        opt_string(b.reference) == opt_string(request.reference),
{
    PaymentBody {
        receiver_msisdn: request.to.as_str().to_string(),
        amount: request.amount.amount,
        currency: request.amount.currency,
        note: copy_opt(&request.note),
        reference: copy_opt(&request.reference),
    }
}

/// Answer to a payment.
#[derive(Debug, Clone, PartialEq, Eq)]
pub struct PaymentReply {
    pub transaction_id: String,
    pub status: OrangeStatus,
}

impl PaymentReply {
    pub fn into_response(self) -> (r: PaymentResponse)
        ensures
            r.transaction_id@ == self.transaction_id@,
            r.status == orange_status(self.status),
            r.provider@ == "orange"@,
    {
        payment_response(Operator::Orange, self.transaction_id, TransactionStatus::from(self.status))
    }
}

/// Answer to a balance request.
#[derive(Debug, Clone, PartialEq, Eq)]
pub struct BalanceReply {
    pub balance: u64,
    pub currency: Currency,
}

impl BalanceReply {
    pub fn into_money(self) -> (m: Money)
        ensures
            m == (Money { amount: self.balance, currency: self.currency }),
    {
        Money::new(self.balance, self.currency)
    }
}

/// One transaction as the API describes it.
#[derive(Debug, Clone, PartialEq, Eq)]
pub struct TransactionReply {
    pub transaction_id: String,
    pub status: OrangeStatus,
    pub amount: u64,
    pub currency: Currency,
    pub peer_msisdn: Option<String>,
    pub note: Option<String>,
    pub created_at: String,
}

impl IntoTransaction for TransactionReply {
    open spec fn converts(&self) -> bool {
        counterparty_ok(opt_string(self.peer_msisdn))
    }

    open spec fn converts_to(&self, t: Transaction) -> bool {
        describes(
            t,
            Operator::Orange,
            self.transaction_id@,
            orange_status(self.status),
            Money { amount: self.amount, currency: self.currency },
            opt_string(self.peer_msisdn),
            self.note,
            self.created_at@,
        )
    }

    open spec fn fails_with(&self, e: WaveError) -> bool {
        bad_counterparty(opt_string(self.peer_msisdn), e)
    }

    fn into_transaction(self) -> (r: Result<Transaction, WaveError>) {
        let counterparty = parse_counterparty(self.peer_msisdn)?;
        Ok(build_transaction(
            Operator::Orange,
            TransactionId::from_string(self.transaction_id),
            TransactionStatus::from(self.status),
            Money::new(self.amount, self.currency),
            counterparty,
            self.note,
            self.created_at,
        ))
    }
}

/// Answer to a transaction listing.
#[derive(Debug, Clone, PartialEq, Eq)]
pub struct ListReply {
    pub transactions: Vec<TransactionReply>,
    pub next_cursor: Option<String>,
}

impl ListReply {
    pub fn into_transactions(self) -> (r: Result<Vec<Transaction>, WaveError>)
        ensures
            match r {
                Ok(v) => v@.len() == self.transactions@.len() && forall|i: int|
                    0 <= i < self.transactions@.len() ==> #[trigger] self.transactions@[i].converts()
                        && self.transactions@[i].converts_to(v@[i]),
                Err(e) => exists|k: int|
                    0 <= k < self.transactions@.len() && !#[trigger] self.transactions@[k].converts()
                        && self.transactions@[k].fails_with(e) && forall|j: int|
                        0 <= j < k ==> #[trigger] self.transactions@[j].converts(),
            },
    {
        collect_transactions(self.transactions)
    }
}

} // verus!
