//! The MTN Mobile Money (MoMo) operator.
//!
//! Every call carries the subscription key (`Ocp-Apim-Subscription-Key`) and
//! the target environment (`X-Target-Environment`), besides a Bearer token
//! obtained with Basic auth `api_user:api_key` and kept in a
//! [`crate::token::TokenCache`].
//!
//! A payment takes two steps: the client makes up a reference (a UUID v4)
//! sent as `X-Reference-Id`, the API answers `202 Accepted` with no body, and
//! the status is then polled on that reference, which becomes the
//! transaction id. Amounts travel as strings (`"7500"`) and numbers as
//! MSISDNs without `+` (`2250700000000`): both are normalised here.

use std::collections::hash_map::{DefaultHasher, RandomState};
use std::hash::{BuildHasher, Hasher};
use std::time::Duration;
use vstd::prelude::*;

use crate::error::{is_api_error, WaveError};
use crate::operator::{
    bad_counterparty, base_url_override, base_url_override_spec, build_transaction, parse_counterparty,
    collect_transactions, copy_opt, basic, Credentials, counterparty_ok, debug_duration, duration_debug, shown, debug_str,
    debug_struct, debug_struct_text, describes, duration_from_secs, join, list_query,
    list_query_spec, opt_string, opt_text, pairs_view, payment_response, require_setting,
    sandbox_enabled, sandbox_requested, setting_given, whole_seconds, IntoTransaction, Operator,
    DEFAULT_TIMEOUT_SECS,
};
use crate::phone::is_e164_text;
use crate::text::{
    decimal, parse_u64, parse_u64_spec, strip_start, trim, trim_start_char, trimmed,
    u64_to_decimal, CharClass,
};
use crate::types::{
    Currency, ListOptions, Money, PaymentRequest, PaymentResponse, PhoneNumber, Transaction,
    TransactionId, TransactionStatus,
};

verus! {

broadcast use vstd::string::group_string_axioms;

/// Base URL of the production API.
pub const DEFAULT_BASE_URL: &'static str = "https://proxy.momoapi.mtn.com";

/// Base URL of MTN's public MoMo sandbox.
pub const SANDBOX_BASE_URL: &'static str = "https://sandbox.momodeveloper.mtn.com";

/// Header of the reference that the client makes up for a transfer.
pub const REFERENCE_HEADER: &'static str = "X-Reference-Id";

/// Header of the subscription key, on every call.
pub const SUBSCRIPTION_KEY_HEADER: &'static str = "Ocp-Apim-Subscription-Key";

/// Header of the target environment, on every call but the token request.
pub const TARGET_ENVIRONMENT_HEADER: &'static str = "X-Target-Environment";

pub const TOKEN_PATH: &'static str = "/disbursement/token/";

pub const TRANSFER_PATH: &'static str = "/disbursement/v1_0/transfer";

pub const BALANCE_PATH: &'static str = "/disbursement/v1_0/account/balance";

pub const TRANSACTIONS_PATH: &'static str = "/disbursement/v1_0/transactions";

/// Configuration of the MTN MoMo provider.
#[derive(Clone)]
pub struct MtnConfig {
    pub subscription_key: String,
    pub api_user: String,
    pub api_key: String,
    pub base_url: String,
    /// Value of the `X-Target-Environment` header (`sandbox`, or the market's
    /// name in production, e.g. `mtncotedivoire`).
    pub target_environment: String,
    pub timeout: Duration,
}

impl MtnConfig {
    pub fn new(subscription_key: &str, api_user: &str, api_key: &str) -> (c: MtnConfig)
        ensures
            c.subscription_key@ == subscription_key@,
            c.api_user@ == api_user@,
            c.api_key@ == api_key@,
            c.base_url@ == DEFAULT_BASE_URL@,
            c.target_environment@ == "mtncotedivoire"@,
            c.timeout == whole_seconds(DEFAULT_TIMEOUT_SECS),
    {
        MtnConfig {
            subscription_key: subscription_key.to_string(),
            api_user: api_user.to_string(),
            api_key: api_key.to_string(),
            base_url: DEFAULT_BASE_URL.to_string(),
            target_environment: "mtncotedivoire".to_string(),
            timeout: duration_from_secs(DEFAULT_TIMEOUT_SECS),
        }
    }

    /// The configuration that the settings `MTN_SUBSCRIPTION_KEY`,
    /// `MTN_API_USER`, `MTN_API_KEY`, `MTN_SANDBOX` and `MTN_BASE_URL`
    /// describe (`None` for an unset or unreadable variable): sandbox by
    /// default (URL and target environment), `MTN_BASE_URL` above everything.
    pub fn from_settings(
        subscription_key: Option<&str>,
        api_user: Option<&str>,
        api_key: Option<&str>,
        sandbox: Option<&str>,
        base_url: Option<&str>,
    ) -> (r: Result<MtnConfig, WaveError>)
        ensures
            match r {
                Ok(c) => {
                    &&& setting_given(opt_text(subscription_key))
                    &&& setting_given(opt_text(api_user))
                    &&& setting_given(opt_text(api_key))
                    &&& opt_text(subscription_key) == Some(c.subscription_key@)
                    &&& opt_text(api_user) == Some(c.api_user@)
                    &&& opt_text(api_key) == Some(c.api_key@)
                    &&& c.timeout == whole_seconds(DEFAULT_TIMEOUT_SECS)
                    &&& c.target_environment@ == if sandbox_requested(opt_text(sandbox)) {
                        "sandbox"@
                    } else {
                        "mtncotedivoire"@
                    }
                    &&& c.base_url@ == match base_url_override_spec(opt_text(base_url)) {
                        Some(u) => u,
                        None => if sandbox_requested(opt_text(sandbox)) {
                            SANDBOX_BASE_URL@
                        } else {
                            DEFAULT_BASE_URL@
                        },
                    }
                },
                Err(e) => if !setting_given(opt_text(subscription_key)) {
                    is_api_error(
                        e,
                        "mtn"@,
                        "config"@,
                        crate::operator::missing_setting_message("MTN_SUBSCRIPTION_KEY"@),
                    )
                } else if !setting_given(opt_text(api_user)) {
                    is_api_error(
                        e,
                        "mtn"@,
                        "config"@,
                        crate::operator::missing_setting_message("MTN_API_USER"@),
                    )
                } else {
                    !setting_given(opt_text(api_key)) && is_api_error(
                        e,
                        "mtn"@,
                        "config"@,
                        crate::operator::missing_setting_message("MTN_API_KEY"@),
                    )
                },
            },
    {
        let subscription_key = require_setting(Operator::Mtn, "MTN_SUBSCRIPTION_KEY", subscription_key)?;
        let api_user = require_setting(Operator::Mtn, "MTN_API_USER", api_user)?;
        let api_key = require_setting(Operator::Mtn, "MTN_API_KEY", api_key)?;
        let mut config = MtnConfig::new(subscription_key.as_str(), api_user.as_str(), api_key.as_str());
        if sandbox_enabled(sandbox) {
            config.base_url = SANDBOX_BASE_URL.to_string();
            config.target_environment = "sandbox".to_string();
        }
        if let Some(url) = base_url_override(base_url) {
            config.base_url = url;
        }
        Ok(config)
    }

    pub fn with_base_url(self, base_url: &str) -> (c: MtnConfig)
        ensures
            c.base_url@ == base_url@,
            c.subscription_key == self.subscription_key,
            c.api_user == self.api_user,
            c.api_key == self.api_key,
            c.target_environment == self.target_environment,
            c.timeout == self.timeout,
    {
        MtnConfig { base_url: base_url.to_string(), ..self }
    }

    pub fn with_target_environment(self, environment: &str) -> (c: MtnConfig)
        ensures
            c.target_environment@ == environment@,
            c.subscription_key == self.subscription_key,
            c.api_user == self.api_user,
            c.api_key == self.api_key,
            c.base_url == self.base_url,
            c.timeout == self.timeout,
    {
        MtnConfig { target_environment: environment.to_string(), ..self }
    }

    pub fn with_timeout(self, timeout: Duration) -> (c: MtnConfig)
        ensures
            c.timeout == timeout,
            c.subscription_key == self.subscription_key,
            c.api_user == self.api_user,
            c.api_key == self.api_key,
            c.base_url == self.base_url,
            c.target_environment == self.target_environment,
    {
        MtnConfig { timeout, ..self }
    }

    /// The debug text of the configuration, given that of its timeout. The
    /// subscription key and the API key are written `***`.
    pub open spec fn debug_text(self, timeout_text: Seq<char>) -> Seq<char> {
        debug_struct_text(
            "MtnConfig"@,
            seq![
                ("subscription_key"@, shown("***"@)),
                ("api_user"@, shown(self.api_user@)),
                ("api_key"@, shown("***"@)),
                ("base_url"@, shown(self.base_url@)),
                ("target_environment"@, shown(self.target_environment@)),
                ("timeout"@, timeout_text),
            ],
        )
    }

    /// What `{:?}` shows of the configuration: neither key ever appears.
    pub fn redacted_debug(&self) -> (r: String)
        ensures
            r@ == self.debug_text(duration_debug(self.timeout)),
    {
        let timeout_text = debug_duration(&self.timeout);
        let mut fields: Vec<(String, String)> = Vec::new();
        fields.push(("subscription_key".to_string(), debug_str("***")));
        fields.push(("api_user".to_string(), debug_str(self.api_user.as_str())));
        fields.push(("api_key".to_string(), debug_str("***")));
        fields.push(("base_url".to_string(), debug_str(self.base_url.as_str())));
        fields.push(("target_environment".to_string(), debug_str(self.target_environment.as_str())));
        fields.push(("timeout".to_string(), timeout_text));
        let r = debug_struct("MtnConfig", &fields);
        assert(pairs_view(fields@) =~= seq![
            ("subscription_key"@, shown("***"@)),
            ("api_user"@, shown(self.api_user@)),
            ("api_key"@, shown("***"@)),
            ("base_url"@, shown(self.base_url@)),
            ("target_environment"@, shown(self.target_environment@)),
            ("timeout"@, timeout_text@),
        ]);
        assert(r@ == self.debug_text(timeout_text@));
        r
    }

    /// The credentials of a token request: the API user and key in HTTP
    /// Basic. Other calls carry the token as a Bearer.
    pub fn token_credentials(&self) -> (c: Credentials)
        ensures
            c matches Credentials::Basic { user, password } && user@ == self.api_user@
                && password@ == self.api_key@,
    {
        basic(self.api_user.as_str(), self.api_key.as_str())
    }

    /// The headers of a token request: the subscription key.
    pub fn token_headers(&self) -> (h: Vec<(String, String)>)
        ensures
            pairs_view(h@) == seq![(SUBSCRIPTION_KEY_HEADER@, self.subscription_key@)],
    {
        let mut h: Vec<(String, String)> = Vec::new();
        h.push((SUBSCRIPTION_KEY_HEADER.to_string(), self.subscription_key.clone()));
        assert(pairs_view(h@) =~= seq![(SUBSCRIPTION_KEY_HEADER@, self.subscription_key@)]);
        h
    }

    /// The headers of every other call, besides the Bearer token: the
    /// subscription key and the target environment.
    pub fn call_headers(&self) -> (h: Vec<(String, String)>)
        ensures
            pairs_view(h@) == seq![
                (SUBSCRIPTION_KEY_HEADER@, self.subscription_key@),
                (TARGET_ENVIRONMENT_HEADER@, self.target_environment@),
            ],
    {
        let mut h: Vec<(String, String)> = Vec::new();
        h.push((SUBSCRIPTION_KEY_HEADER.to_string(), self.subscription_key.clone()));
        h.push((TARGET_ENVIRONMENT_HEADER.to_string(), self.target_environment.clone()));
        assert(pairs_view(h@) =~= seq![
            (SUBSCRIPTION_KEY_HEADER@, self.subscription_key@),
            (TARGET_ENVIRONMENT_HEADER@, self.target_environment@),
        ]);
        h
    }

    /// The full URL of an API path.
    pub fn url(&self, path: &str) -> (r: String)
        ensures
            r@ == self.base_url@ + path@,
    {
        join(self.base_url.as_str(), path)
    }
}

/// Lemma: the debug text of a configuration depends on neither key: two
/// configurations that differ only in their keys show the same
/// `redacted_debug` text.
pub proof fn lemma_debug_ignores_keys(a: MtnConfig, b: MtnConfig)
    requires
        a.api_user@ == b.api_user@,
        a.base_url@ == b.base_url@,
        a.target_environment@ == b.target_environment@,
        a.timeout == b.timeout,
    ensures
        a.debug_text(duration_debug(a.timeout)) == b.debug_text(duration_debug(b.timeout)),
{
}

// ---------------------------------------------------------------------------
// Reference ids (UUID v4)
// ---------------------------------------------------------------------------

/// Lower-case hexadecimal digit of a nibble.
pub open spec fn hex_digit(n: u8) -> char {
    if n < 10 {
        (n + 48) as char
    } else {
        (n + 87) as char
    }
}

pub open spec fn is_lower_hex(c: char) -> bool {
    ('0' <= c && c <= '9') || ('a' <= c && c <= 'f')
}

/// Two hexadecimal digits per byte, most significant nibble first.
pub open spec fn hex_of(bytes: Seq<u8>) -> Seq<char>
    decreases bytes.len(),
{
    if bytes.len() == 0 {
        Seq::empty()
    } else {
        hex_of(bytes.drop_last()) + seq![hex_digit(bytes.last() >> 4), hex_digit(bytes.last() & 0x0f)]
    }
}

/// The bytes with the RFC 4122 version (4) and variant bits set.
pub open spec fn with_v4_bits(b: Seq<u8>) -> Seq<u8> {
    b.update(6, (b[6] & 0x0f) | 0x40).update(8, (b[8] & 0x3f) | 0x80)
}

/// The UUID text of 16 bytes once their version and variant bits are set:
/// groups of 8, 4, 4, 4 and 12 hexadecimal digits joined by dashes.
pub open spec fn uuid_text(bytes: Seq<u8>) -> Seq<char> {
    let b = with_v4_bits(bytes);
    hex_of(b.subrange(0, 4)) + seq!['-'] + hex_of(b.subrange(4, 6)) + seq!['-'] + hex_of(
        b.subrange(6, 8),
    ) + seq!['-'] + hex_of(b.subrange(8, 10)) + seq!['-'] + hex_of(b.subrange(10, 16))
}

/// The shape of a UUID v4: 36 characters, dashes exactly at 8, 13, 18 and
/// 23, lower-case hexadecimal digits elsewhere, version digit `4` at 14 and
/// an RFC 4122 variant digit (`8`, `9`, `a` or `b`) at 19.
pub open spec fn is_uuid_v4_text(s: Seq<char>) -> bool {
    &&& s.len() == 36
    &&& forall|i: int|
        0 <= i < 36 ==> ((#[trigger] s[i] == '-') <==> (i == 8 || i == 13 || i == 18 || i == 23))
    &&& forall|i: int|
        0 <= i < 36 && i != 8 && i != 13 && i != 18 && i != 23 ==> is_lower_hex(#[trigger] s[i])
    &&& s[14] == '4'
    &&& (s[19] == '8' || s[19] == '9' || s[19] == 'a' || s[19] == 'b')
}

proof fn lemma_hex_digit(n: u8)
    requires
        n < 16,
    ensures
        is_lower_hex(hex_digit(n)),
        hex_digit(n) != '-',
{
    if n < 10 {
        assert((n + 48) as char as int == n + 48);
    } else {
        assert((n + 87) as char as int == n + 87);
    }
}

proof fn lemma_hex_of(bytes: Seq<u8>)
    ensures
        hex_of(bytes).len() == 2 * bytes.len(),
        forall|i: int| 0 <= i < hex_of(bytes).len() ==> is_lower_hex(#[trigger] hex_of(bytes)[i]),
        bytes.len() > 0 ==> hex_of(bytes)[0] == hex_digit(bytes[0] >> 4),
    decreases bytes.len(),
{
    if bytes.len() > 0 {
        let init = bytes.drop_last();
        let b = bytes.last();
        lemma_hex_of(init);
        assert(b >> 4 < 16 && b & 0x0f < 16) by (bit_vector);
        lemma_hex_digit(b >> 4);
        lemma_hex_digit(b & 0x0f);
        let h = hex_of(bytes);
        assert(h == hex_of(init) + seq![hex_digit(b >> 4), hex_digit(b & 0x0f)]);
        assert forall|i: int| 0 <= i < h.len() implies is_lower_hex(#[trigger] h[i]) by {
            if i < hex_of(init).len() {
                assert(h[i] == hex_of(init)[i]);
            }
        }
        if init.len() > 0 {
            assert(init[0] == bytes[0]);
            assert(h[0] == hex_of(init)[0]);
        }
    }
}

/// Lemma: the reference made of any 16 bytes has the shape of a UUID v4.
pub proof fn lemma_uuid_text_is_v4(bytes: Seq<u8>)
    requires
        bytes.len() == 16,
    ensures
        is_uuid_v4_text(uuid_text(bytes)),
{
    let b = with_v4_bits(bytes);
    let g0 = hex_of(b.subrange(0, 4));
    let g1 = hex_of(b.subrange(4, 6));
    let g2 = hex_of(b.subrange(6, 8));
    let g3 = hex_of(b.subrange(8, 10));
    let g4 = hex_of(b.subrange(10, 16));
    lemma_hex_of(b.subrange(0, 4));
    lemma_hex_of(b.subrange(4, 6));
    lemma_hex_of(b.subrange(6, 8));
    lemma_hex_of(b.subrange(8, 10));
    lemma_hex_of(b.subrange(10, 16));
    let s = uuid_text(bytes);
    assert(s == g0 + seq!['-'] + g1 + seq!['-'] + g2 + seq!['-'] + g3 + seq!['-'] + g4);
    let x6 = bytes[6];
    let x8 = bytes[8];
    assert(((x6 & 0x0f) | 0x40) >> 4 == 4) by (bit_vector);
    assert(8 <= ((x8 & 0x3f) | 0x80) >> 4 <= 11) by (bit_vector);
    assert(b.subrange(6, 8)[0] == (x6 & 0x0f) | 0x40);
    assert(b.subrange(8, 10)[0] == (x8 & 0x3f) | 0x80);
    assert(s[14] == g2[0]);
    assert(s[19] == g3[0]);
    assert(hex_digit(4) == '4');
    let v = ((x8 & 0x3f) | 0x80) >> 4;
    assert(hex_digit(v) == '8' || hex_digit(v) == '9' || hex_digit(v) == 'a' || hex_digit(v) == 'b') by {
        if v == 8 {
        } else if v == 9 {
        } else if v == 10 {
        } else {
        }
    }
    assert forall|i: int| 0 <= i < 36 implies ((#[trigger] s[i] == '-') <==> (i == 8 || i == 13
        || i == 18 || i == 23)) && (i != 8 && i != 13 && i != 18 && i != 23 ==> is_lower_hex(
        s[i],
    )) by {
        if i < 8 {
            assert(s[i] == g0[i]);
        } else if i == 8 {
        } else if i < 13 {
            assert(s[i] == g1[i - 9]);
        } else if i == 13 {
        } else if i < 18 {
            assert(s[i] == g2[i - 14]);
        } else if i == 18 {
        } else if i < 23 {
            assert(s[i] == g3[i - 19]);
        } else if i == 23 {
        } else {
            assert(s[i] == g4[i - 24]);
        }
    }
}

fn hex_digit_char(n: u8) -> (c: char)
    requires
        n < 16,
    ensures
        c == hex_digit(n),
{
    if n < 10 {
        (n + 48) as char
    } else {
        (n + 87) as char
    }
}

/// Appends the hexadecimal digits of `bytes[from..to]`.
fn push_hex(out: &mut String, bytes: &Vec<u8>, from: usize, to: usize)
    requires
        from <= to <= bytes@.len(),
    ensures
        final(out)@ == old(out)@ + hex_of(bytes@.subrange(from as int, to as int)),
{
    let ghost start = out@;
    let mut i: usize = from;
    while i < to
        invariant
            from <= i <= to <= bytes@.len(),
            out@ == start + hex_of(bytes@.subrange(from as int, i as int)),
        decreases to - i,
    {
        let b = bytes[i];
        assert(b >> 4 < 16 && b & 0x0f < 16) by (bit_vector);
        crate::text::push_char(out, hex_digit_char(b >> 4));
        crate::text::push_char(out, hex_digit_char(b & 0x0f));
        assert(bytes@.subrange(from as int, i + 1).drop_last() =~= bytes@.subrange(from as int, i as int));
        assert(out@ =~= start + hex_of(bytes@.subrange(from as int, i + 1)));
        i = i + 1;
    }
}

/// The UUID v4 text of 16 bytes of entropy, as MoMo expects it in
/// `X-Reference-Id`.
pub fn reference_id_from_bytes(bytes: &[u8]) -> (r: String)
    requires
        bytes@.len() == 16,
    ensures
        r@ == uuid_text(bytes@),
        is_uuid_v4_text(r@),
{
    let mut b: Vec<u8> = Vec::new();
    let mut i: usize = 0;
    while i < 16
        invariant
            i <= 16,
            bytes@.len() == 16,
            b@ == bytes@.take(i as int),
        decreases 16 - i,
    {
        b.push(bytes[i]);
        assert(bytes@.take(i + 1) =~= bytes@.take(i as int).push(bytes@[i as int]));
        i = i + 1;
    }
    assert(bytes@.take(16) =~= bytes@);
    let b6 = (b[6] & 0x0f) | 0x40;
    b.set(6, b6);
    let b8 = (b[8] & 0x3f) | 0x80;
    b.set(8, b8);
    assert(b@ =~= with_v4_bits(bytes@));
    let mut r = String::new();
    push_hex(&mut r, &b, 0, 4);
    crate::text::push_char(&mut r, '-');
    push_hex(&mut r, &b, 4, 6);
    crate::text::push_char(&mut r, '-');
    push_hex(&mut r, &b, 6, 8);
    crate::text::push_char(&mut r, '-');
    push_hex(&mut r, &b, 8, 10);
    crate::text::push_char(&mut r, '-');
    push_hex(&mut r, &b, 10, 16);
    assert(r@ =~= uuid_text(bytes@));
    proof {
        lemma_uuid_text_is_v4(bytes@);
    }
    r
}

/// The eight bytes of a 64-bit word, most significant first.
pub open spec fn be_bytes(w: u64) -> Seq<u8> {
    Seq::new(8, |k: int| (w >> ((56 - 8 * k) as u64)) as u8)
}

/// Appends the eight bytes of `w`, most significant first.
fn push_be_bytes(out: &mut Vec<u8>, w: u64)
    ensures
        final(out)@ == old(out)@ + be_bytes(w),
{
    let ghost start = out@;
    let mut k: u64 = 0;
    while k < 8
        invariant
            k <= 8,
            out@ == start + be_bytes(w).take(k as int),
        decreases 8 - k,
    {
        let shift: u64 = 56 - 8 * k;
        out.push((w >> shift) as u8);
        assert(be_bytes(w).take(k + 1) =~= be_bytes(w).take(k as int).push(be_bytes(w)[k as int]));
        k = k + 1;
    }
    assert(be_bytes(w).take(8) =~= be_bytes(w));
}

/// The UUID v4 text of two 64-bit words of entropy, each written most
/// significant byte first: the reference made of their sixteen bytes.
pub fn reference_id_from_words(w0: u64, w1: u64) -> (r: String)
    ensures
        r@ == uuid_text(be_bytes(w0) + be_bytes(w1)),
        is_uuid_v4_text(r@),
{
    let mut bytes: Vec<u8> = Vec::new();
    push_be_bytes(&mut bytes, w0);
    push_be_bytes(&mut bytes, w1);
    assert(bytes@ =~= be_bytes(w0) + be_bytes(w1));
    reference_id_from_bytes(bytes.as_slice())
}

#[verifier::external_type_specification]
#[verifier::external_body]
pub struct ExSystemTime(std::time::SystemTime);

#[verifier::external_type_specification]
#[verifier::external_body]
pub struct ExSystemTimeError(std::time::SystemTimeError);

/// `SystemTime::now`: the system clock's reading. The clock decides: nothing
/// is promised of it.
#[verifier::external_body]
fn system_now() -> std::time::SystemTime {
    std::time::SystemTime::now()
}

/// `SystemTime::duration_since`, measured from `UNIX_EPOCH`: an error for a
/// clock set before the epoch. Nothing is promised of the value.
#[verifier::external_body]
fn since_unix_epoch(t: &std::time::SystemTime) -> Result<Duration, std::time::SystemTimeError> {
    t.duration_since(std::time::UNIX_EPOCH)
}

/// `Duration::as_nanos`: the whole duration in nanoseconds. Durations are
/// opaque here, so nothing is stated of the value.
#[verifier::external_body]
fn duration_nanos(d: &Duration) -> u128 {
    d.as_nanos()
}

/// `RandomState::new`: hashing keys freshly drawn from the process's
/// entropy. Chance decides: nothing is promised of them.
#[verifier::external_body]
fn new_random_state() -> RandomState {
    RandomState::new()
}

/// `<RandomState as BuildHasher>::build_hasher`: a hasher keyed by `state`.
#[verifier::external_body]
fn build_hasher(state: &RandomState) -> DefaultHasher {
    state.build_hasher()
}

/// `<DefaultHasher as Hasher>::write_u128`: feeds `x` to the hasher.
#[verifier::external_body]
fn hasher_write_u128(hasher: &mut DefaultHasher, x: u128) {
    hasher.write_u128(x);
}

/// `<DefaultHasher as Hasher>::write_usize`: feeds `x` to the hasher.
#[verifier::external_body]
fn hasher_write_usize(hasher: &mut DefaultHasher, x: usize) {
    hasher.write_usize(x);
}

/// Nanoseconds since the Unix epoch on the system clock, 0 for a clock set
/// before it.
fn clock_nanos() -> u128 {
    match since_unix_epoch(&system_now()) {
        Ok(d) => duration_nanos(&d),
        Err(_) => 0,
    }
}

/// 64 bits from a freshly keyed hasher fed `seed` and `index`: whatever
/// the draw, any value may come out.
fn random_word(seed: u128, index: usize) -> u64 {
    let state = new_random_state();
    let mut hasher = build_hasher(&state);
    hasher_write_u128(&mut hasher, seed);
    hasher_write_usize(&mut hasher, index);
    hasher.finish()
}

/// Makes up a fresh reference id for a transfer: a UUID v4 (the format MoMo
/// requires for `X-Reference-Id`) drawn from the system's entropy and clock.
///
/// Good enough for unique transaction references; whatever the draw, the
/// result has the shape of a UUID v4.
pub fn generate_reference_id() -> (r: String)
    ensures
        is_uuid_v4_text(r@),
{
    let nanos = clock_nanos();
    let w0 = random_word(nanos, 0);
    let w1 = random_word(nanos, 1);
    reference_id_from_words(w0, w1)
}

// ---------------------------------------------------------------------------
// Amounts and MSISDNs
// ---------------------------------------------------------------------------

/// Message of the error for an amount that is not a whole number.
pub open spec fn bad_amount_message(raw: Seq<char>) -> Seq<char> {
    "montant non numérique retourné par l'API : '"@ + raw + "'"@
}

/// The whole number of francs that a MoMo amount string stands for.
pub open spec fn amount_value(raw: Seq<char>) -> Option<u64> {
    parse_u64_spec(trimmed(raw))
}

/// Converts a MoMo amount (a string) into a whole number of francs.
pub fn parse_amount(raw: &str) -> (r: Result<u64, WaveError>)
    ensures
        match r {
            Ok(n) => amount_value(raw@) == Some(n),
            Err(e) => amount_value(raw@) is None && is_api_error(
                e,
                "mtn"@,
                "invalid-amount"@,
                bad_amount_message(raw@),
            ),
        },
{
    let t = trim(raw);
    match parse_u64(t.as_str()) {
        Some(n) => Ok(n),
        None => {
            let mut message = "montant non numérique retourné par l'API : '".to_string();
            message.append(raw);
            message.append("'");
            Err(WaveError::ApiError {
                provider: Operator::Mtn.name().to_string(),
                code: "invalid-amount".to_string(),
                message,
            })
        },
    }
}

/// The E.164 text of a MoMo MSISDN: a `+` is added when missing.
pub open spec fn msisdn_text(raw: Seq<char>) -> Seq<char> {
    if raw.len() > 0 && raw[0] == '+' {
        raw
    } else {
        seq!['+'] + raw
    }
}

/// Normalises a MoMo MSISDN (without `+`) into an E.164 [`PhoneNumber`].
pub fn parse_msisdn(raw: &str) -> (r: Result<PhoneNumber, WaveError>)
    ensures
        match r {
            Ok(p) => crate::types::accepts_number(None, msisdn_text(raw@)) && p@
                == crate::phone::number_e164(None, msisdn_text(raw@)),
            Err(e) => !crate::types::accepts_number(None, msisdn_text(raw@))
                && crate::error::is_invalid_number_error(e, msisdn_text(raw@)),
        },
{
    proof {
        reveal_strlit("+");
    }
    let v = crate::text::chars_of(raw);
    let normalized = if v.len() > 0 && v[0] == '+' {
        raw.to_string()
    } else {
        let mut s = "+".to_string();
        s.append(raw);
        s
    };
    assert(normalized@ =~= msisdn_text(raw@));
    PhoneNumber::parse(normalized.as_str())
}

/// The MSISDN of a number as MoMo writes it: its E.164 text without `+`.
pub fn msisdn(phone: &PhoneNumber) -> (r: String)
    ensures
        r@ == strip_start(phone@, CharClass::Exactly('+')),
        r@ == phone@.drop_first(),
{
    let text = phone.as_str();
    let r = trim_start_char(text, '+');
    proof {
        let s = phone@;
        assert(is_e164_text(s));
        assert(s.drop_first().len() == 0 || s.drop_first()[0] != '+') by {
            if s.drop_first().len() > 0 {
                assert(s.drop_first()[0] == s[1]);
                assert(crate::text::is_digit(s[1]));
            }
        }
        assert(strip_start(s.drop_first(), CharClass::Exactly('+')) == s.drop_first());
    }
    r
}

/// Lemma: MoMo's `+`-less MSISDN of a number reads back as the same E.164
/// text: writing a number for MoMo and normalising what MoMo sends back
/// gives the number's own text.
pub proof fn lemma_msisdn_roundtrip(text: Seq<char>)
    requires
        is_e164_text(text),
    ensures
        msisdn_text(text.drop_first()) == text,
{
    let m = text.drop_first();
    assert(m.len() > 0);
    assert(m[0] == text[1]);
    assert(crate::text::is_digit(text[1]));
    assert(seq!['+'] + m =~= text);
}

// ---------------------------------------------------------------------------
// Statuses and bodies
// ---------------------------------------------------------------------------

/// Status in MoMo's spelling.
#[derive(Debug, Clone, Copy, PartialEq, Eq, Structural)]
pub enum MomoStatus {
    Pending,
    Successful,
    Failed,
}

pub open spec fn momo_status(s: MomoStatus) -> TransactionStatus {
    match s {
        MomoStatus::Pending => TransactionStatus::Pending,
        MomoStatus::Successful => TransactionStatus::Successful,
        MomoStatus::Failed => TransactionStatus::Failed,
    }
}

/// Law: the SDK status of a MoMo status names the same outcome. `PENDING`
/// is the one status that stays pending (a transfer still awaiting the
/// user's confirmation is never reported as final), `SUCCESSFUL` the one
/// that counts as paid, `FAILED` the one failure; distinct MoMo statuses
/// give distinct SDK statuses.
pub proof fn lemma_momo_status_meaning(s: MomoStatus, t: MomoStatus)
    ensures
        (momo_status(s) == TransactionStatus::Pending) <==> (s == MomoStatus::Pending),
        (momo_status(s) == TransactionStatus::Successful) <==> (s == MomoStatus::Successful),
        (momo_status(s) == TransactionStatus::Failed) <==> (s == MomoStatus::Failed),
        !(momo_status(s) is Cancelled) && !(momo_status(s) is Expired),
        momo_status(s) == momo_status(t) ==> s == t,
{
}

impl From<MomoStatus> for TransactionStatus {
    fn from(status: MomoStatus) -> (r: TransactionStatus) {
        match status {
            MomoStatus::Pending => TransactionStatus::Pending,
            MomoStatus::Successful => TransactionStatus::Successful,
            MomoStatus::Failed => TransactionStatus::Failed,
        }
    }
}

impl vstd::std_specs::convert::FromSpecImpl<MomoStatus> for TransactionStatus {
    open spec fn obeys_from_spec() -> bool {
        true
    }

    open spec fn from_spec(v: MomoStatus) -> TransactionStatus {
        momo_status(v)
    }
}

/// A party of a transfer.
#[derive(Debug, Clone, PartialEq, Eq)]
pub struct Party {
    pub party_id_type: String,
    pub party_id: String,
}

/// Body of `POST /disbursement/v1_0/transfer`.
#[derive(Debug, Clone, PartialEq, Eq)]
pub struct TransferBody {
    pub amount: String,
    pub currency: Currency,
    pub external_id: Option<String>,
    pub payee: Party,
    pub payee_note: Option<String>,
}

/// The body of a transfer for `request`: the amount as a decimal string,
/// the payee by its MSISDN.
pub fn transfer_body(request: &PaymentRequest) -> (b: TransferBody)
    ensures
        b.amount@ == decimal(request.amount.amount as nat),
        b.currency == request.amount.currency,
        opt_string(b.external_id) == opt_string(request.reference),
        b.payee.party_id_type@ == "MSISDN"@,
        b.payee.party_id@ == request.to@.drop_first(),
        opt_string(b.payee_note) == opt_string(request.note),
{
    TransferBody {
        amount: u64_to_decimal(request.amount.amount),
        currency: request.amount.currency,
        external_id: copy_opt(&request.reference),
        payee: Party { party_id_type: "MSISDN".to_string(), party_id: msisdn(&request.to) },
        payee_note: copy_opt(&request.note),
    }
}

/// The answer to an accepted transfer (`202`, no body): the reference made
/// up by the client is the transaction id, and the payment is pending.
pub fn accepted_transfer(reference_id: String) -> (r: PaymentResponse)
    ensures
        r.transaction_id@ == reference_id@,
        r.status == TransactionStatus::Pending,
        r.provider@ == "mtn"@,
{
    payment_response(Operator::Mtn, reference_id, TransactionStatus::Pending)
}

/// Path of one transfer.
pub fn transfer_path(id: &TransactionId) -> (r: String)
    ensures
        r@ == "/disbursement/v1_0/transfer/"@ + id@,
{
    join("/disbursement/v1_0/transfer/", id.as_str())
}

/// Query of a balance request: the MSISDN of the account.
pub fn balance_query(account: &PhoneNumber) -> (q: Vec<(String, String)>)
    ensures
        pairs_view(q@) == seq![("msisdn"@, account@.drop_first())],
{
    let mut q: Vec<(String, String)> = Vec::new();
    q.push(("msisdn".to_string(), msisdn(account)));
    assert(pairs_view(q@) =~= seq![("msisdn"@, account@.drop_first())]);
    q
}

/// Query of a transaction listing.
pub fn transactions_query(account: &PhoneNumber, opts: ListOptions) -> (q: Vec<(String, String)>)
    ensures
        pairs_view(q@) == list_query_spec(
            "msisdn"@,
            account@.drop_first(),
            opts.limit,
            opt_string(opts.cursor),
        ),
{
    list_query("msisdn", msisdn(account), opts)
}

/// Answer to a balance request.
#[derive(Debug, Clone, PartialEq, Eq)]
pub struct BalanceReply {
    pub available_balance: String,
    pub currency: Currency,
}

impl BalanceReply {
    pub fn into_money(self) -> (r: Result<Money, WaveError>)
        ensures
            match r {
                Ok(m) => amount_value(self.available_balance@) == Some(m.amount) && m.currency
                    == self.currency,
                Err(e) => amount_value(self.available_balance@) is None && is_api_error(
                    e,
                    "mtn"@,
                    "invalid-amount"@,
                    bad_amount_message(self.available_balance@),
                ),
            },
    {
        let amount = parse_amount(self.available_balance.as_str())?;
        Ok(Money::new(amount, self.currency))
    }
}

/// A party as the API describes it.
#[derive(Debug, Clone, PartialEq, Eq)]
pub struct PartyReply {
    pub party_id: String,
}

/// One transfer as the API describes it.
#[derive(Debug, Clone, PartialEq, Eq)]
pub struct TransferReply {
    pub amount: String,
    pub currency: Currency,
    pub status: MomoStatus,
    pub payee: Option<PartyReply>,
    pub payee_note: Option<String>,
    pub created_at: Option<String>,
}

pub open spec fn payee_text(payee: Option<PartyReply>) -> Option<Seq<char>> {
    match payee {
        Some(p) => Some(msisdn_text(p.party_id@)),
        None => None,
    }
}

impl TransferReply {
    /// The transfer converts: its payee, if any, is a valid number and its
    /// amount a whole number.
    pub open spec fn converts(self) -> bool {
        counterparty_ok(payee_text(self.payee)) && amount_value(self.amount@) is Some
    }

    /// `t` is the transaction `id` that the transfer describes.
    pub open spec fn converts_to(self, id: Seq<char>, t: Transaction) -> bool {
        describes(
            t,
            Operator::Mtn,
            id,
            momo_status(self.status),
            Money { amount: amount_value(self.amount@).unwrap(), currency: self.currency },
            payee_text(self.payee),
            self.payee_note,
            match self.created_at {
                Some(c) => c@,
                None => Seq::empty(),
            },
        )
    }

    /// `e` is the error that stops the conversion: the payee is checked
    /// before the amount.
    pub open spec fn fails_with(self, e: WaveError) -> bool {
        if !counterparty_ok(payee_text(self.payee)) {
            bad_counterparty(payee_text(self.payee), e)
        } else {
            is_api_error(e, "mtn"@, "invalid-amount"@, bad_amount_message(self.amount@))
        }
    }

    pub fn into_transaction(self, id: TransactionId) -> (r: Result<Transaction, WaveError>)
        ensures
            match r {
                Ok(t) => self.converts() && self.converts_to(id@, t),
                Err(e) => !self.converts() && self.fails_with(e),
            },
    {
        proof {
            reveal_strlit("+");
        }
        let payee_text: Option<String> = match &self.payee {
            Some(party) => {
                let raw = party.party_id.as_str();
                let v = crate::text::chars_of(raw);
                let normalized = if v.len() > 0 && v[0] == '+' {
                    raw.to_string()
                } else {
                    let mut s = "+".to_string();
                    s.append(raw);
                    s
                };
                assert(normalized@ =~= msisdn_text(raw@));
                Some(normalized)
            },
            None => None,
        };
        assert(opt_string(payee_text) == crate::mtn::payee_text(self.payee));
        let counterparty = parse_counterparty(payee_text)?;
        let amount = parse_amount(self.amount.as_str())?;
        let created_at = match self.created_at {
            Some(c) => c,
            None => String::new(),
        };
        Ok(build_transaction(
            Operator::Mtn,
            id,
            TransactionStatus::from(self.status),
            Money::new(amount, self.currency),
            counterparty,
            self.payee_note,
            created_at,
        ))
    }
}

/// One item of a listing: the transfer and its reference.
#[derive(Debug, Clone, PartialEq, Eq)]
pub struct ListItemReply {
    pub reference_id: String,
    pub transfer: TransferReply,
}

impl IntoTransaction for ListItemReply {
    open spec fn converts(&self) -> bool {
        self.transfer.converts()
    }

    open spec fn converts_to(&self, t: Transaction) -> bool {
        self.transfer.converts_to(self.reference_id@, t)
    }

    open spec fn fails_with(&self, e: WaveError) -> bool {
        self.transfer.fails_with(e)
    }

    fn into_transaction(self) -> (r: Result<Transaction, WaveError>) {
        self.transfer.into_transaction(TransactionId::from_string(self.reference_id))
    }
}

/// Answer to a transaction listing.
#[derive(Debug, Clone, PartialEq, Eq)]
pub struct ListReply {
    pub transactions: Vec<ListItemReply>,
}

impl ListReply {
    pub fn into_transactions(self) -> (r: Result<Vec<Transaction>, WaveError>)
        ensures
            match r {
                Ok(v) => v@.len() == self.transactions@.len() && forall|i: int|
                    0 <= i < self.transactions@.len() ==> #[trigger] self.transactions@[i].converts()
                        && self.transactions@[i].converts_to(v@[i]),
                Err(e) => exists|k: int|
                    0 <= k < self.transactions@.len() && !#[trigger] self.transactions@[k].converts()
                        && self.transactions@[k].fails_with(e) && forall|j: int|
                        0 <= j < k ==> #[trigger] self.transactions@[j].converts(),
            },
    {
        collect_transactions(self.transactions)
    }
}

} // verus!
