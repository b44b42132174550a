//! The Moov Africa operator, the simplest of the four: a static API key sent
//! in the `X-API-Key` header, no token to renew.
//!
//! Its wire dialect: lower-case statuses with `completed` for a successful
//! payment, errors `{error_code, error_message}` (`INSUFFICIENT_BALANCE` for
//! missing funds); everything is translated to the SDK's own types.

use std::time::Duration;
use vstd::prelude::*;

use crate::error::WaveError;
use crate::operator::{
    build_transaction, parse_counterparty, collect_transactions, copy_opt, debug_duration, duration_debug, shown, debug_str,
    debug_struct, debug_struct_text, describes, duration_from_secs, join, opt_string, opt_text,
    base_url_override, base_url_override_spec, counterparty_ok, bad_counterparty, list_query,
    list_query_spec, pairs_view, payment_response, require_setting, sandbox_enabled,
    sandbox_requested, setting_given, whole_seconds, IntoTransaction, Operator,
    DEFAULT_TIMEOUT_SECS,
};
use crate::types::{
    Currency, ListOptions, Money, PaymentRequest, PaymentResponse, PhoneNumber, Transaction,
    TransactionId, TransactionStatus,
};

verus! {

broadcast use vstd::string::group_string_axioms;

/// Base URL of the production API.
pub const DEFAULT_BASE_URL: &'static str = "https://api.moov-africa.com";

/// Base URL of the sandbox.
pub const SANDBOX_BASE_URL: &'static str = "https://api.sandbox.moov-africa.com";

/// Header that carries the static API key on every call.
pub const API_KEY_HEADER: &'static str = "X-API-Key";

pub const PAYMENTS_PATH: &'static str = "/api/v1/payments";

pub const BALANCE_PATH: &'static str = "/api/v1/balance";

pub const TRANSACTIONS_PATH: &'static str = "/api/v1/transactions";

/// Configuration of the Moov Africa provider.
#[derive(Clone)]
pub struct MoovConfig {
    pub api_key: String,
    /// Base URL: overridden in the sandbox and against local mocks.
    pub base_url: String,
    /// Global HTTP timeout (90 s by default: users confirm slowly).
    pub timeout: Duration,
}

impl MoovConfig {
    pub fn new(api_key: &str) -> (c: MoovConfig)
        ensures
            c.api_key@ == api_key@,
            c.base_url@ == DEFAULT_BASE_URL@,
            c.timeout == whole_seconds(DEFAULT_TIMEOUT_SECS),
    {
        MoovConfig {
            api_key: api_key.to_string(),
            base_url: DEFAULT_BASE_URL.to_string(),
            timeout: duration_from_secs(DEFAULT_TIMEOUT_SECS),
        }
    }

    /// The configuration that the settings `MOOV_API_KEY`, `MOOV_SANDBOX`
    /// and `MOOV_BASE_URL` describe (`None` for an unset or unreadable
    /// variable): sandbox by default, `MOOV_BASE_URL` above everything.
    pub fn from_settings(
        api_key: Option<&str>,
        sandbox: Option<&str>,
        base_url: Option<&str>,
    ) -> (r: Result<MoovConfig, WaveError>)
        ensures
            match r {
                Ok(c) => {
                    &&& setting_given(opt_text(api_key))
                    &&& opt_text(api_key) == Some(c.api_key@)
                    &&& c.timeout == whole_seconds(DEFAULT_TIMEOUT_SECS)
                    &&& c.base_url@ == match base_url_override_spec(opt_text(base_url)) {
                        Some(u) => u,
                        None => if sandbox_requested(opt_text(sandbox)) {
                            SANDBOX_BASE_URL@
                        } else {
                            DEFAULT_BASE_URL@
                        },
                    }
                },
                Err(e) => !setting_given(opt_text(api_key)) && crate::error::is_api_error(
                    e,
                    "moov"@,
                    "config"@,
                    crate::operator::missing_setting_message("MOOV_API_KEY"@),
                ),
            },
    {
        let api_key = require_setting(Operator::Moov, "MOOV_API_KEY", api_key)?;
        let mut config = MoovConfig::new(api_key.as_str());
        if sandbox_enabled(sandbox) {
            config.base_url = SANDBOX_BASE_URL.to_string();
        }
        if let Some(url) = base_url_override(base_url) {
            config.base_url = url;
        }
        Ok(config)
    }

    pub fn with_base_url(self, base_url: &str) -> (c: MoovConfig)
        ensures
            c.base_url@ == base_url@,
            c.api_key == self.api_key,
            c.timeout == self.timeout,
    {
        MoovConfig { base_url: base_url.to_string(), ..self }
    }

    pub fn with_timeout(self, timeout: Duration) -> (c: MoovConfig)
        ensures
            c.timeout == timeout,
            c.api_key == self.api_key,
            c.base_url == self.base_url,
    {
        MoovConfig { timeout, ..self }
    }

    /// The debug text of the configuration, given that of its timeout. The
    /// API key is written `***`.
    pub open spec fn debug_text(self, timeout_text: Seq<char>) -> Seq<char> {
        debug_struct_text(
            "MoovConfig"@,
            seq![
                ("api_key"@, shown("***"@)),
                ("base_url"@, shown(self.base_url@)),
                ("timeout"@, timeout_text),
            ],
        )
    }

    /// What `{:?}` shows of the configuration: the API key never appears.
    pub fn redacted_debug(&self) -> (r: String)
        ensures
            r@ == self.debug_text(duration_debug(self.timeout)),
    {
        let timeout_text = debug_duration(&self.timeout);
        let mut fields: Vec<(String, String)> = Vec::new();
        fields.push(("api_key".to_string(), debug_str("***")));
        fields.push(("base_url".to_string(), debug_str(self.base_url.as_str())));
        fields.push(("timeout".to_string(), timeout_text));
        let r = debug_struct("MoovConfig", &fields);
        assert(pairs_view(fields@) =~= seq![
            ("api_key"@, shown("***"@)),
            ("base_url"@, shown(self.base_url@)),
            ("timeout"@, timeout_text@),
        ]);
        assert(r@ == self.debug_text(timeout_text@));
        r
    }

    /// The headers of every call: the API key in `X-API-Key`.
    pub fn auth_headers(&self) -> (h: Vec<(String, String)>)
        ensures
            pairs_view(h@) == seq![(API_KEY_HEADER@, self.api_key@)],
    {
        let mut h: Vec<(String, String)> = Vec::new();
        h.push((API_KEY_HEADER.to_string(), self.api_key.clone()));
        assert(pairs_view(h@) =~= seq![(API_KEY_HEADER@, self.api_key@)]);
        h
    }

    /// The full URL of an API path.
    pub fn url(&self, path: &str) -> (r: String)
        ensures
            r@ == self.base_url@ + path@,
    {
        join(self.base_url.as_str(), path)
    }

}

/// Lemma: the debug text of a configuration does not depend on its API
/// key: two configurations that differ only there show the same
/// `redacted_debug` text.
pub proof fn lemma_debug_ignores_api_key(a: MoovConfig, b: MoovConfig)
    requires
        a.base_url@ == b.base_url@,
        a.timeout == b.timeout,
    ensures
        a.debug_text(duration_debug(a.timeout)) == b.debug_text(duration_debug(b.timeout)),
{
}

/// Path of one transaction.
pub fn transaction_path(id: &TransactionId) -> (r: String)
    ensures
        r@ == "/api/v1/transactions/"@ + id@,
{
    join("/api/v1/transactions/", id.as_str())
}

/// Query of a balance request.
pub fn balance_query(account: &PhoneNumber) -> (q: Vec<(String, String)>)
    ensures
        pairs_view(q@) == seq![("account"@, account@)],
{
    let mut q: Vec<(String, String)> = Vec::new();
    q.push(("account".to_string(), account.as_str().to_string()));
    assert(pairs_view(q@) =~= seq![("account"@, account@)]);
    q
}

/// Query of a transaction listing.
pub fn transactions_query(account: &PhoneNumber, opts: ListOptions) -> (q: Vec<(String, String)>)
    ensures
        pairs_view(q@) == list_query_spec("account"@, account@, opts.limit, opt_string(opts.cursor)),
{
    list_query("account", account.as_str().to_string(), opts)
}

/// Status in Moov's spelling.
#[derive(Debug, Clone, Copy, PartialEq, Eq, Structural)]
pub enum MoovStatus {
    Pending,
    Completed,
    Failed,
    Cancelled,
    Expired,
}

/// The SDK status of a Moov status: `completed` is a successful payment.
pub open spec fn moov_status(s: MoovStatus) -> TransactionStatus {
    match s {
        MoovStatus::Pending => TransactionStatus::Pending,
        MoovStatus::Completed => TransactionStatus::Successful,
        MoovStatus::Failed => TransactionStatus::Failed,
        MoovStatus::Cancelled => TransactionStatus::Cancelled,
        MoovStatus::Expired => TransactionStatus::Expired,
    }
}

/// Law: the SDK status of a Moov status names the same outcome: `pending`
/// is the one status that stays pending, `completed` the one that counts as
/// paid, and `failed`, `cancelled`, `expired` their namesakes; distinct Moov
/// statuses give distinct SDK statuses.
pub proof fn lemma_moov_status_meaning(s: MoovStatus, t: MoovStatus)
    ensures
        (moov_status(s) == TransactionStatus::Pending) <==> (s == MoovStatus::Pending),
        (moov_status(s) == TransactionStatus::Successful) <==> (s == MoovStatus::Completed),
        (moov_status(s) == TransactionStatus::Failed) <==> (s == MoovStatus::Failed),
        (moov_status(s) == TransactionStatus::Cancelled) <==> (s == MoovStatus::Cancelled),
        (moov_status(s) == TransactionStatus::Expired) <==> (s == MoovStatus::Expired),
        moov_status(s) == moov_status(t) ==> s == t,
{
}

impl From<MoovStatus> for TransactionStatus {
    fn from(status: MoovStatus) -> (r: TransactionStatus) {
        match status {
            MoovStatus::Pending => TransactionStatus::Pending,
            MoovStatus::Completed => TransactionStatus::Successful,
            MoovStatus::Failed => TransactionStatus::Failed,
            MoovStatus::Cancelled => TransactionStatus::Cancelled,
            MoovStatus::Expired => TransactionStatus::Expired,
        }
    }
}

impl vstd::std_specs::convert::FromSpecImpl<MoovStatus> for TransactionStatus {
    open spec fn obeys_from_spec() -> bool {
        true
    }

    open spec fn from_spec(v: MoovStatus) -> TransactionStatus {
        moov_status(v)
    }
}

/// Body of `POST /api/v1/payments`.
#[derive(Debug, Clone, PartialEq, Eq)]
pub struct PaymentBody {
    pub destination: String,
    pub amount: u64,
    pub currency: Currency,
    pub message: Option<String>,
    pub external_reference: Option<String>,
}

/// The body of a payment request for `request`.
pub fn payment_body(request: &PaymentRequest) -> (b: PaymentBody)
    ensures
        b.destination@ == request.to@,
        b.amount == request.amount.amount,
        b.currency == request.amount.currency,
        opt_string(b.message) == opt_string(request.note),
        opt_string(b.external_reference) == opt_string(request.reference),
{
    PaymentBody {
        destination: request.to.as_str().to_string(),
        amount: request.amount.amount,
        currency: request.amount.currency,
        message: copy_opt(&request.note),
        external_reference: copy_opt(&request.reference),
    }
}

/// Answer to a payment.
#[derive(Debug, Clone, PartialEq, Eq)]
pub struct PaymentReply {
    pub id: String,
    pub status: MoovStatus,
}

impl PaymentReply {
    pub fn into_response(self) -> (r: PaymentResponse)
        ensures
            r.transaction_id@ == self.id@,
            r.status == moov_status(self.status),
            r.provider@ == "moov"@,
    {
        payment_response(Operator::Moov, self.id, TransactionStatus::from(self.status))
    }
}

/// Answer to a balance request.
#[derive(Debug, Clone, PartialEq, Eq)]
pub struct BalanceReply {
    pub available: u64,
    pub currency: Currency,
}

impl BalanceReply {
    pub fn into_money(self) -> (m: Money)
        ensures
            m == (Money { amount: self.available, currency: self.currency }),
    {
        Money::new(self.available, self.currency)
    }
}

/// One transaction as the API describes it.
#[derive(Debug, Clone, PartialEq, Eq)]
pub struct TransactionReply {
    pub id: String,
    pub status: MoovStatus,
    pub amount: u64,
    pub currency: Currency,
    pub destination: Option<String>,
    pub message: Option<String>,
    pub created_at: String,
}

impl IntoTransaction for TransactionReply {
    open spec fn converts(&self) -> bool {
        counterparty_ok(opt_string(self.destination))
    }

    open spec fn converts_to(&self, t: Transaction) -> bool {
        describes(
            t,
            Operator::Moov,
            self.id@,
            moov_status(self.status),
            Money { amount: self.amount, currency: self.currency },
            opt_string(self.destination),
            self.message,
            self.created_at@,
        )
    }

    open spec fn fails_with(&self, e: WaveError) -> bool {
        bad_counterparty(opt_string(self.destination), e)
    }

    fn into_transaction(self) -> (r: Result<Transaction, WaveError>) {
        let counterparty = parse_counterparty(self.destination)?;
        Ok(build_transaction(
            Operator::Moov,
            TransactionId::from_string(self.id),
            TransactionStatus::from(self.status),
            Money::new(self.amount, self.currency),
            counterparty,
            self.message,
            self.created_at,
        ))
    }
}

/// Answer to a transaction listing.
#[derive(Debug, Clone, PartialEq, Eq)]
pub struct ListReply {
    pub items: Vec<TransactionReply>,
    pub next_cursor: Option<String>,
}

impl ListReply {
    pub fn into_transactions(self) -> (r: Result<Vec<Transaction>, WaveError>)
        ensures
            match r {
                Ok(v) => v@.len() == self.items@.len() && forall|i: int|
                    0 <= i < self.items@.len() ==> #[trigger] self.items@[i].converts()
                        && self.items@[i].converts_to(v@[i]),
                Err(e) => exists|k: int|
                    0 <= k < self.items@.len() && !#[trigger] self.items@[k].converts()
                        && self.items@[k].fails_with(e) && forall|j: int|
                        0 <= j < k ==> #[trigger] self.items@[j].converts(),
            },
    {
        collect_transactions(self.items)
    }
}

} // verus!
