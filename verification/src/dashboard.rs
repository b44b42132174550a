//! What the local web dashboard decides, apart from serving HTTP: which
//! status code answers an SDK error, which providers show as configured,
//! and how a payment form is checked.

use vstd::prelude::*;

use crate::cli::{catalog_order, line_of, ProviderInfo};
use crate::error::WaveError;
use crate::operator::Operator;
use crate::types::{accepts_number, PhoneNumber};

verus! {

broadcast use vstd::string::group_string_axioms;

/// The HTTP status that answers an SDK error: a refused number is the
/// caller's fault (400), missing funds a conflict (409), a rate limit is
/// passed on (429), and anything else is the operator's side (502).
pub open spec fn status_for(e: WaveError) -> u16 {
    match e {
        WaveError::InvalidPhoneNumber { .. } => 400,
        WaveError::InsufficientFunds => 409,
        WaveError::AuthFailed { .. } => 502,
        WaveError::RateLimited { .. } => 429,
        _ => 502,
    }
}

/// Law: the dashboard answers an invalid number as the client's fault
/// (`400`), a lack of funds as a conflict (`409`), a rate limit as `429`,
/// and every other failure (refused credentials, network, timeout, the
/// operator's own errors, malformed answers) as a bad gateway (`502`).
pub proof fn lemma_http_status_meaning(e: WaveError)
    ensures
        status_for(e) == 400 <==> e is InvalidPhoneNumber,
        status_for(e) == 409 <==> e is InsufficientFunds,
        status_for(e) == 429 <==> e is RateLimited,
        status_for(e) == 502 <==> !(e is InvalidPhoneNumber || e is InsufficientFunds || e is RateLimited),
{
}

pub fn http_status(e: &WaveError) -> (s: u16)
    ensures
        s == status_for(*e),
{
    match e {
        WaveError::InvalidPhoneNumber { .. } => 400,
        WaveError::InsufficientFunds => 409,
        WaveError::AuthFailed { .. } => 502,
        WaveError::RateLimited { .. } => 429,
        _ => 502,
    }
}

/// The catalogue of the dashboard: every provider, available when its
/// credentials were found.
pub fn provider_statuses(configured: &Vec<Operator>) -> (v: Vec<ProviderInfo>)
    ensures
        v@.len() == 4,
        forall|i: int|
            0 <= i < 4 ==> line_of(#[trigger] v@[i], catalog_order()[i], configured@.contains(catalog_order()[i])),
{
    let mut v: Vec<ProviderInfo> = Vec::new();
    let order = [Operator::Wave, Operator::Orange, Operator::Mtn, Operator::Moov];
    let mut i: usize = 0;
    while i < 4
        invariant
            i <= 4,
            v@.len() == i,
            order@ == catalog_order(),
            forall|j: int|
                0 <= j < i ==> line_of(#[trigger] v@[j], catalog_order()[j], configured@.contains(catalog_order()[j])),
        decreases 4 - i,
    {
        let op = order[i];
        let available = contains_operator(configured, op);
        v.push(ProviderInfo { name: op.name(), currency: "XOF", available });
        i = i + 1;
    }
    v
}

fn contains_operator(v: &Vec<Operator>, op: Operator) -> (b: bool)
    ensures
        b == v@.contains(op),
{
    let mut i: usize = 0;
    while i < v.len()
        invariant
            i <= v@.len(),
            forall|j: int| 0 <= j < i ==> v@[j] != op,
        decreases v@.len() - i,
    {
        if v[i] == op {
            assert(v@[i as int] == op);
            return true;
        }
        i = i + 1;
    }
    false
}

/// The message for a provider that is unknown or not configured.
pub open spec fn unavailable_provider_text(name: Seq<char>) -> Seq<char> {
    "provider '"@ + name + "' inconnu ou non configuré (credentials manquants dans .env)"@
}

pub fn unavailable_provider(name: &str) -> (m: String)
    ensures
        m@ == unavailable_provider_text(name@),
{
    let mut m = "provider '".to_string();
    m.append(name);
    m.append("' inconnu ou non configuré (credentials manquants dans .env)");
    m
}

/// The message for a number the dashboard refuses.
pub open spec fn bad_phone_text(input: Seq<char>) -> Seq<char> {
    "numéro invalide : '"@ + input + "' (format E.164 attendu)"@
}

/// Parses a number sent by the dashboard's page; a refusal is a `400`.
pub fn parse_phone(input: &str) -> (r: Result<PhoneNumber, String>)
    ensures
        match r {
            Ok(p) => accepts_number(None, input@) && p@ == crate::phone::number_e164(None, input@),
            Err(m) => !accepts_number(None, input@) && m@ == bad_phone_text(input@),
        },
{
    match PhoneNumber::parse(input) {
        Ok(p) => Ok(p),
        Err(_) => {
            let mut m = "numéro invalide : '".to_string();
            m.append(input);
            m.append("' (format E.164 attendu)");
            Err(m)
        },
    }
}

/// A payment from the dashboard must move a strictly positive amount.
pub fn check_amount(amount: u64) -> (r: Result<(), String>)
    ensures
        r is Ok <==> amount > 0,
        r matches Err(m) ==> m@ == "le montant doit être strictement positif"@,
{
    if amount == 0 {
        Err("le montant doit être strictement positif".to_string())
    } else {
        Ok(())
    }
}

} // verus!
