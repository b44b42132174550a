//! The Wave operator: Bearer API key, statuses already in the SDK's own
//! spelling, errors `{"error": {code, message}}`.
//!
//! Payments are asynchronous: initiating one usually answers `pending`, and
//! the final status comes from polling the transaction.

use std::time::Duration;
use vstd::prelude::*;

use crate::error::WaveError;
use crate::operator::{
    build_transaction, parse_counterparty, collect_transactions, copy_opt, bearer, Credentials, debug_duration, duration_debug, shown, debug_str,
    debug_struct, debug_struct_text, describes, duration_from_secs, join, opt_string, opt_text,
    base_url_override, base_url_override_spec, counterparty_ok, bad_counterparty, list_query,
    list_query_spec, pairs_view, payment_response, require_setting, sandbox_enabled,
    sandbox_requested, setting_given, whole_seconds, IntoTransaction, Operator,
    DEFAULT_TIMEOUT_SECS,
};
use crate::types::{
    Currency, ListOptions, Money, PaymentRequest, PaymentResponse, PhoneNumber, Transaction,
    TransactionId, TransactionStatus,
};

verus! {

broadcast use vstd::string::group_string_axioms;

/// Base URL of the production API.
pub const DEFAULT_BASE_URL: &'static str = "https://api.wave.com";

/// Base URL of the sandbox.
pub const SANDBOX_BASE_URL: &'static str = "https://api.sandbox.wave.com";

pub const PAYOUTS_PATH: &'static str = "/v1/payouts";

pub const BALANCE_PATH: &'static str = "/v1/balance";

pub const TRANSACTIONS_PATH: &'static str = "/v1/transactions";

/// Configuration of the Wave provider.
#[derive(Clone)]
pub struct WaveConfig {
    pub api_key: String,
    pub merchant_id: String,
    /// Base URL: overridden in the sandbox and against local mocks.
    pub base_url: String,
    /// Global HTTP timeout (90 s by default: users confirm slowly).
    pub timeout: Duration,
}

impl WaveConfig {
    pub fn new(api_key: &str, merchant_id: &str) -> (c: WaveConfig)
        ensures
            c.api_key@ == api_key@,
            c.merchant_id@ == merchant_id@,
            c.base_url@ == DEFAULT_BASE_URL@,
            c.timeout == whole_seconds(DEFAULT_TIMEOUT_SECS),
    {
        WaveConfig {
            api_key: api_key.to_string(),
            merchant_id: merchant_id.to_string(),
            base_url: DEFAULT_BASE_URL.to_string(),
            timeout: duration_from_secs(DEFAULT_TIMEOUT_SECS),
        }
    }

    /// The configuration that the settings `WAVE_API_KEY`, `WAVE_MERCHANT_ID`,
    /// `WAVE_SANDBOX` and `WAVE_BASE_URL` describe (`None` for an unset or
    /// unreadable variable).
    ///
    /// The sandbox is targeted unless `WAVE_SANDBOX` is explicitly `false`
    /// (or `0`): production is never reached by accident. `WAVE_BASE_URL`
    /// overrides the URL whatever `WAVE_SANDBOX` says.
    pub fn from_settings(
        api_key: Option<&str>,
        merchant_id: Option<&str>,
        sandbox: Option<&str>,
        base_url: Option<&str>,
    ) -> (r: Result<WaveConfig, WaveError>)
        ensures
            match r {
                Ok(c) => {
                    &&& setting_given(opt_text(api_key)) && setting_given(opt_text(merchant_id))
                    &&& opt_text(api_key) == Some(c.api_key@)
                    &&& opt_text(merchant_id) == Some(c.merchant_id@)
                    &&& c.timeout == whole_seconds(DEFAULT_TIMEOUT_SECS)
                    &&& c.base_url@ == match base_url_override_spec(opt_text(base_url)) {
                        Some(u) => u,
                        None => if sandbox_requested(opt_text(sandbox)) {
                            SANDBOX_BASE_URL@
                        } else {
                            DEFAULT_BASE_URL@
                        },
                    }
                },
                Err(e) => if !setting_given(opt_text(api_key)) {
                    crate::error::is_api_error(
                        e,
                        "wave"@,
                        "config"@,
                        crate::operator::missing_setting_message("WAVE_API_KEY"@),
                    )
                } else {
                    !setting_given(opt_text(merchant_id)) && crate::error::is_api_error(
                        e,
                        "wave"@,
                        "config"@,
                        crate::operator::missing_setting_message("WAVE_MERCHANT_ID"@),
                    )
                },
            },
    {
        let api_key = require_setting(Operator::Wave, "WAVE_API_KEY", api_key)?;
        let merchant_id = require_setting(Operator::Wave, "WAVE_MERCHANT_ID", merchant_id)?;
        let mut config = WaveConfig::new(api_key.as_str(), merchant_id.as_str());
        if sandbox_enabled(sandbox) {
            config.base_url = SANDBOX_BASE_URL.to_string();
        }
        if let Some(url) = base_url_override(base_url) {
            config.base_url = url;
        }
        Ok(config)
    }

    pub fn with_base_url(self, base_url: &str) -> (c: WaveConfig)
        ensures
            c.base_url@ == base_url@,
            c.api_key == self.api_key,
            c.merchant_id == self.merchant_id,
            c.timeout == self.timeout,
    {
        WaveConfig { base_url: base_url.to_string(), ..self }
    }

    pub fn with_timeout(self, timeout: Duration) -> (c: WaveConfig)
        ensures
            c.timeout == timeout,
            c.api_key == self.api_key,
            c.merchant_id == self.merchant_id,
            c.base_url == self.base_url,
    {
        WaveConfig { timeout, ..self }
    }

    /// The debug text of the configuration, given that of its timeout. The
    /// API key is written `***`.
    pub open spec fn debug_text(self, timeout_text: Seq<char>) -> Seq<char> {
        debug_struct_text(
            "WaveConfig"@,
            seq![
                ("api_key"@, shown("***"@)),
                ("merchant_id"@, shown(self.merchant_id@)),
                ("base_url"@, shown(self.base_url@)),
                ("timeout"@, timeout_text),
            ],
        )
    }

    /// What `{:?}` shows of the configuration: the API key never appears.
    pub fn redacted_debug(&self) -> (r: String)
        ensures
            r@ == self.debug_text(duration_debug(self.timeout)),
    {
        let timeout_text = debug_duration(&self.timeout);
        let mut fields: Vec<(String, String)> = Vec::new();
        fields.push(("api_key".to_string(), debug_str("***")));
        fields.push(("merchant_id".to_string(), debug_str(self.merchant_id.as_str())));
        fields.push(("base_url".to_string(), debug_str(self.base_url.as_str())));
        fields.push(("timeout".to_string(), timeout_text));
        let r = debug_struct("WaveConfig", &fields);
        assert(pairs_view(fields@) =~= seq![
            ("api_key"@, shown("***"@)),
            ("merchant_id"@, shown(self.merchant_id@)),
            ("base_url"@, shown(self.base_url@)),
            ("timeout"@, timeout_text@),
        ]);
        assert(r@ == self.debug_text(timeout_text@));
        r
    }

    /// The full URL of an API path.
    pub fn url(&self, path: &str) -> (r: String)
        ensures
            r@ == self.base_url@ + path@,
    {
        join(self.base_url.as_str(), path)
    }

    /// The credentials of every call: the API key as a Bearer token.
    pub fn credentials(&self) -> (c: Credentials)
        ensures
            c matches Credentials::Bearer(t) && t@ == self.api_key@,
    {
        bearer(self.api_key.as_str())
    }

    /// The body of a payout request for `request`.
    pub fn payout_body(&self, request: &PaymentRequest) -> (b: PayoutBody)
        ensures
            b.merchant_id@ == self.merchant_id@,
            b.recipient@ == request.to@,
            b.amount == request.amount.amount,
            b.currency == request.amount.currency,
            opt_string(b.note) == opt_string(request.note),
            opt_string(b.client_reference) == opt_string(request.reference),
    {
        PayoutBody {
            merchant_id: self.merchant_id.clone(),
            recipient: request.to.as_str().to_string(),
            amount: request.amount.amount,
            currency: request.amount.currency,
            note: copy_opt(&request.note),
            client_reference: copy_opt(&request.reference),
        }
    }
}

/// Lemma: the debug text of a configuration does not depend on its API
/// key: two configurations that differ only there show the same
/// `redacted_debug` text.
pub proof fn lemma_debug_ignores_api_key(a: WaveConfig, b: WaveConfig)
    requires
        a.merchant_id@ == b.merchant_id@,
        a.base_url@ == b.base_url@,
        a.timeout == b.timeout,
    ensures
        a.debug_text(duration_debug(a.timeout)) == b.debug_text(duration_debug(b.timeout)),
{
}

/// Path of one transaction.
pub fn transaction_path(id: &TransactionId) -> (r: String)
    ensures
        r@ == "/v1/transactions/"@ + id@,
{
    join("/v1/transactions/", id.as_str())
}

/// Query of a balance request.
pub fn balance_query(account: &PhoneNumber) -> (q: Vec<(String, String)>)
    ensures
        pairs_view(q@) == seq![("account"@, account@)],
{
    let mut q: Vec<(String, String)> = Vec::new();
    q.push(("account".to_string(), account.as_str().to_string()));
    assert(pairs_view(q@) =~= seq![("account"@, account@)]);
    q
}

/// Query of a transaction listing.
pub fn transactions_query(account: &PhoneNumber, opts: ListOptions) -> (q: Vec<(String, String)>)
    ensures
        pairs_view(q@) == list_query_spec("account"@, account@, opts.limit, opt_string(opts.cursor)),
{
    list_query("account", account.as_str().to_string(), opts)
}

/// Body of `POST /v1/payouts`.
#[derive(Debug, Clone, PartialEq, Eq)]
pub struct PayoutBody {
    pub merchant_id: String,
    pub recipient: String,
    pub amount: u64,
    pub currency: Currency,
    pub note: Option<String>,
    pub client_reference: Option<String>,
}

/// Answer to a payout.
#[derive(Debug, Clone, PartialEq, Eq)]
pub struct PayoutReply {
    pub id: String,
    pub status: TransactionStatus,
}

impl PayoutReply {
    pub fn into_response(self) -> (r: PaymentResponse)
        ensures
            r.transaction_id@ == self.id@,
            r.status == self.status,
            r.provider@ == "wave"@,
    {
        payment_response(Operator::Wave, self.id, self.status)
    }
}

/// Answer to a balance request.
#[derive(Debug, Clone, PartialEq, Eq)]
pub struct BalanceReply {
    pub amount: u64,
    pub currency: Currency,
}

impl BalanceReply {
    pub fn into_money(self) -> (m: Money)
        ensures
            m == (Money { amount: self.amount, currency: self.currency }),
    {
        Money::new(self.amount, self.currency)
    }
}

/// One transaction as the API describes it.
#[derive(Debug, Clone, PartialEq, Eq)]
pub struct TransactionReply {
    pub id: String,
    pub status: TransactionStatus,
    pub amount: u64,
    pub currency: Currency,
    pub counterparty: Option<String>,
    pub note: Option<String>,
    pub created_at: String,
}

impl IntoTransaction for TransactionReply {
    open spec fn converts(&self) -> bool {
        counterparty_ok(opt_string(self.counterparty))
    }

    open spec fn converts_to(&self, t: Transaction) -> bool {
        describes(
            t,
            Operator::Wave,
            self.id@,
            self.status,
            Money { amount: self.amount, currency: self.currency },
            opt_string(self.counterparty),
            self.note,
            self.created_at@,
        )
    }

    open spec fn fails_with(&self, e: WaveError) -> bool {
        bad_counterparty(opt_string(self.counterparty), e)
    }

    fn into_transaction(self) -> (r: Result<Transaction, WaveError>) {
        let counterparty = parse_counterparty(self.counterparty)?;
        Ok(build_transaction(
            Operator::Wave,
            TransactionId::from_string(self.id),
            self.status,
            Money::new(self.amount, self.currency),
            counterparty,
            self.note,
            self.created_at,
        ))
    }
}

/// Answer to a transaction listing.
#[derive(Debug, Clone, PartialEq, Eq)]
pub struct ListReply {
    pub items: Vec<TransactionReply>,
    pub next_cursor: Option<String>,
}

impl ListReply {
    pub fn into_transactions(self) -> (r: Result<Vec<Transaction>, WaveError>)
        ensures
            match r {
                Ok(v) => v@.len() == self.items@.len() && forall|i: int|
                    0 <= i < self.items@.len() ==> #[trigger] self.items@[i].converts()
                        && self.items@[i].converts_to(v@[i]),
                Err(e) => exists|k: int|
                    0 <= k < self.items@.len() && !#[trigger] self.items@[k].converts()
                        && self.items@[k].fails_with(e) && forall|j: int|
                        0 <= j < k ==> #[trigger] self.items@[j].converts(),
            },
    {
        collect_transactions(self.items)
    }
}

} // verus!
