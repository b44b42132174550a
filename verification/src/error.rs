//! The SDK's error type: every public operation returns
//! `Result<T, WaveError>`.

use vstd::prelude::*;

use crate::text::{decimal, parse_u64_spec, push_decimal};

verus! {

broadcast use vstd::string::group_string_axioms;

/// Unified error of the SDK.
#[derive(Debug, Clone, PartialEq, Eq)]
pub enum WaveError {
    /// HTTP transport failure (DNS, TLS, dropped connection, ...), with the
    /// transport's own description.
    Network(String),
    /// Credentials refused by the operator (invalid API key, expired token, ...).
    AuthFailed { provider: String },
    /// The paying account does not hold enough funds.
    InsufficientFunds,
    /// The given number is not a valid E.164 number.
    InvalidPhoneNumber { number: String },
    /// Deadline exceeded: often the user did not confirm on their phone in time.
    Timeout { seconds: u64 },
    /// Too many requests: wait `retry_after_secs` before retrying.
    RateLimited { retry_after_secs: u64 },
    /// Business error reported by the operator's API.
    ApiError { provider: String, code: String, message: String },
    /// Malformed JSON request or response body, with the decoder's description.
    Serialization(String),
}

impl WaveError {
    /// The message that the SDK shows for the error.
    pub open spec fn message_spec(self) -> Seq<char> {
        match self {
            WaveError::Network(d) => "Erreur réseau : "@ + d@,
            WaveError::AuthFailed { provider } => "Authentification refusée par "@ + provider@,
            WaveError::InsufficientFunds => "Solde insuffisant"@,
            WaveError::InvalidPhoneNumber { number } => "Numéro de téléphone invalide : "@ + number@,
            WaveError::Timeout { seconds } => "Timeout après "@ + decimal(seconds as nat) + "s"@,
            WaveError::RateLimited { retry_after_secs } => "Rate limit atteint, réessayer après "@
                + decimal(retry_after_secs as nat) + "s"@,
            WaveError::ApiError { provider, code, message } => "Erreur API "@ + provider@ + " ["@
                + code@ + "] : "@ + message@,
            WaveError::Serialization(d) => "Erreur de sérialisation : "@ + d@,
        }
    }

    /// The message that the SDK shows for the error (the text of its
    /// `Display`).
    pub fn message(&self) -> (m: String)
        ensures
            m@ == self.message_spec(),
    {
        match self {
            WaveError::Network(d) => {
                let mut m = "Erreur réseau : ".to_string();
                m.append(d.as_str());
                m
            },
            WaveError::AuthFailed { provider } => {
                let mut m = "Authentification refusée par ".to_string();
                m.append(provider.as_str());
                m
            },
            WaveError::InsufficientFunds => "Solde insuffisant".to_string(),
            WaveError::InvalidPhoneNumber { number } => {
                let mut m = "Numéro de téléphone invalide : ".to_string();
                m.append(number.as_str());
                m
            },
            WaveError::Timeout { seconds } => {
                let mut m = "Timeout après ".to_string();
                push_decimal(&mut m, *seconds);
                m.append("s");
                m
            },
            WaveError::RateLimited { retry_after_secs } => {
                let mut m = "Rate limit atteint, réessayer après ".to_string();
                push_decimal(&mut m, *retry_after_secs);
                m.append("s");
                m
            },
            WaveError::ApiError { provider, code, message } => {
                let mut m = "Erreur API ".to_string();
                m.append(provider.as_str());
                m.append(" [");
                m.append(code.as_str());
                m.append("] : ");
                m.append(message.as_str());
                m
            },
            WaveError::Serialization(d) => {
                let mut m = "Erreur de sérialisation : ".to_string();
                m.append(d.as_str());
                m
            },
        }
    }
}

/// `a` ends with `b`.
pub open spec fn ends_with(a: Seq<char>, b: Seq<char>) -> bool {
    a.len() >= b.len() && a.skip(a.len() - b.len()) == b
}

/// The number of seconds that a message ends with, before its unit `s`.
pub open spec fn ends_with_seconds(m: Seq<char>, n: u64) -> bool {
    exists|k: int|
        0 <= k < m.len() && m.last() == 's' && parse_u64_spec(#[trigger] m.subrange(k, m.len() - 1))
            == Some(n)
}

/// Law: the message of an error carries what the error holds: the
/// transport's or the decoder's description, the operator, the refused
/// number or the operator's own message end it, and a timeout or a rate
/// limit ends with its number of seconds, which reads back as that number.
pub proof fn lemma_message_keeps_details(e: WaveError)
    ensures
        e matches WaveError::Network(d) ==> ends_with(e.message_spec(), d@),
        e matches WaveError::AuthFailed { provider } ==> ends_with(e.message_spec(), provider@),
        e matches WaveError::InvalidPhoneNumber { number } ==> ends_with(e.message_spec(), number@),
        e matches WaveError::ApiError { message, .. } ==> ends_with(e.message_spec(), message@),
        e matches WaveError::Serialization(d) ==> ends_with(e.message_spec(), d@),
        e matches WaveError::Timeout { seconds } ==> ends_with_seconds(e.message_spec(), seconds),
        e matches WaveError::RateLimited { retry_after_secs } ==> ends_with_seconds(
            e.message_spec(),
            retry_after_secs,
        ),
{
    reveal_strlit("s");
    let m = e.message_spec();
    match e {
        WaveError::Network(d) => {
            assert(m.skip(m.len() - d@.len()) =~= d@);
        },
        WaveError::AuthFailed { provider } => {
            assert(m.skip(m.len() - provider@.len()) =~= provider@);
        },
        WaveError::InvalidPhoneNumber { number } => {
            assert(m.skip(m.len() - number@.len()) =~= number@);
        },
        WaveError::ApiError { message, .. } => {
            assert(m.skip(m.len() - message@.len()) =~= message@);
        },
        WaveError::Serialization(d) => {
            assert(m.skip(m.len() - d@.len()) =~= d@);
        },
        WaveError::Timeout { seconds } => {
            let k = "Timeout après "@.len() as int;
            crate::text::lemma_parse_decimal_roundtrip(seconds);
            assert(m.subrange(k, m.len() - 1) =~= decimal(seconds as nat));
        },
        WaveError::RateLimited { retry_after_secs } => {
            let k = "Rate limit atteint, réessayer après "@.len() as int;
            crate::text::lemma_parse_decimal_roundtrip(retry_after_secs);
            assert(m.subrange(k, m.len() - 1) =~= decimal(retry_after_secs as nat));
        },
        WaveError::InsufficientFunds => {},
    }
}

/// `e` is the invalid-number error for the text `input`.
pub open spec fn is_invalid_number_error(e: WaveError, input: Seq<char>) -> bool {
    e matches WaveError::InvalidPhoneNumber { number } && number@ == input
}

/// `e` is the operator error `(provider, code, message)`.
pub open spec fn is_api_error(
    e: WaveError,
    provider: Seq<char>,
    code: Seq<char>,
    message: Seq<char>,
) -> bool {
    e matches WaveError::ApiError { provider: p, code: c, message: m } && p@ == provider && c@
        == code && m@ == message
}

/// `e` is the authentication error of `provider`.
pub open spec fn is_auth_error(e: WaveError, provider: Seq<char>) -> bool {
    e matches WaveError::AuthFailed { provider: p } && p@ == provider
}

} // verus!
