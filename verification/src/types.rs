//! Shared SDK types: currency, money, phone numbers, transactions.

use vstd::prelude::*;

use crate::error::{is_invalid_number_error, WaveError};
use crate::phone::{
    e164_text, is_e164_text, lookup_region, number_e164, number_is_valid, number_parses,
    number_valid, parse_number, Region,
};
use crate::text::{decimal, parse_u64_spec, u64_to_decimal};

verus! {

broadcast use vstd::string::group_string_axioms;

/// Currency supported by the SDK: the four operators work in the WAEMU zone.
#[derive(Debug, Clone, Copy, PartialEq, Eq, Structural, Hash)]
pub enum Currency {
    /// West African CFA franc (BCEAO).
    XOF,
}

impl Currency {
    /// The ISO 4217 code, as the currency is displayed and sent on the wire.
    pub open spec fn code_spec(self) -> Seq<char> {
        seq!['X', 'O', 'F']
    }

    pub fn code(&self) -> (s: &'static str)
        ensures
            s@ == self.code_spec(),
    {
        proof {
            reveal_strlit("XOF");
        }
        match self {
            Currency::XOF => "XOF",
        }
    }
}

/// A monetary amount in whole units (whole CFA francs): never a float.
#[derive(Debug, Clone, Copy, PartialEq, Eq, Structural, Hash)]
pub struct Money {
    pub amount: u64,
    pub currency: Currency,
}

/// Law: the currency is written by its ISO 4217 code, `XOF`.
pub proof fn lemma_currency_code(c: Currency)
    ensures
        c.code_spec() == "XOF"@,
{
    reveal_strlit("XOF");
    assert(c.code_spec() =~= "XOF"@);
}

impl Money {
    pub fn new(amount: u64, currency: Currency) -> (m: Money)
        ensures
            m == (Money { amount, currency }),
    {
        Money { amount, currency }
    }

    /// Shorthand for an amount in CFA francs.
    pub fn xof(amount: u64) -> (m: Money)
        ensures
            m == (Money { amount, currency: Currency::XOF }),
    {
        Money::new(amount, Currency::XOF)
    }

    /// How the amount is displayed: `5000 XOF`.
    pub open spec fn text(self) -> Seq<char> {
        decimal(self.amount as nat) + seq![' '] + self.currency.code_spec()
    }

    /// The displayed text of the amount, e.g. `5000 XOF`.
    pub fn to_text(&self) -> (s: String)
        ensures
            s@ == self.text(),
    {
        let mut s = u64_to_decimal(self.amount);
        s.append(" ");
        s.append(self.currency.code());
        proof {
            reveal_strlit(" ");
        }
        s
    }
}

/// Law: the displayed text of an amount is its number of francs in
/// decimal, which reads back as the amount, a space, and the currency code.
pub proof fn lemma_money_text_reads_back(m: Money)
    ensures
        exists|k: int|
            0 <= k < m.text().len() && parse_u64_spec(#[trigger] m.text().take(k)) == Some(m.amount)
                && m.text()[k] == ' ' && m.text().skip(k + 1) == "XOF"@,
{
    let d = decimal(m.amount as nat);
    let t = m.text();
    let k = d.len() as int;
    lemma_currency_code(m.currency);
    crate::text::lemma_parse_decimal_roundtrip(m.amount);
    assert(t.take(k) =~= d);
    assert(t.skip(k + 1) =~= m.currency.code_spec());
    assert(t[k] == ' ');
}

/// `phonenumber` accepts `input` as a valid number, `region` being the
/// default region for numbers written without a country code.
pub open spec fn accepts_number(region: Option<Seq<char>>, input: Seq<char>) -> bool {
    number_parses(region, input) && number_is_valid(region, input)
}

/// A phone number validated and normalised to E.164 (e.g. `+2250707070707`).
///
/// Its invariant: the text is what the `phonenumber` formatter wrote for an
/// input that the crate parsed and found valid. No unvalidated number can
/// exist in this type.
#[derive(Debug, PartialEq, Eq, Hash)]
pub struct PhoneNumber(String);

impl Clone for PhoneNumber {
    fn clone(&self) -> (r: PhoneNumber)
        ensures
            r@ == self@,
    {
        proof {
            use_type_invariant(self);
        }
        PhoneNumber(self.0.clone())
    }
}

impl View for PhoneNumber {
    type V = Seq<char>;

    closed spec fn view(&self) -> Seq<char> {
        self.0@
    }
}

impl PhoneNumber {
    #[verifier::type_invariant]
    spec fn validated(self) -> bool {
        &&& is_e164_text(self.0@)
        &&& exists|region: Option<Seq<char>>, input: Seq<char>|
            accepts_number(region, input) && #[trigger] number_e164(region, input) == self.0@
    }

    /// Parses a number already written in international form (`+225...`).
    pub fn parse(input: &str) -> (r: Result<PhoneNumber, WaveError>)
        ensures
            match r {
                Ok(p) => accepts_number(None, input@) && p@ == number_e164(None, input@),
                Err(e) => !accepts_number(None, input@) && is_invalid_number_error(e, input@),
            },
    {
        Self::parse_inner(None, input)
    }

    /// Parses a short local number (e.g. `07 07 07 07 07`) given the ISO
    /// 3166-1 alpha-2 code of its region (`"CI"`, `"SN"`, ...).
    pub fn parse_with_region(region: &str, input: &str) -> (r: Result<PhoneNumber, WaveError>)
        ensures
            match r {
                Ok(p) => crate::phone::region_known(region@) && accepts_number(Some(region@), input@)
                    && p@ == number_e164(Some(region@), input@),
                Err(e) => !(crate::phone::region_known(region@) && accepts_number(
                    Some(region@),
                    input@,
                )) && is_invalid_number_error(e, input@),
            },
    {
        match lookup_region(region) {
            Some(id) => Self::parse_inner(Some(&id), input),
            None => Err(WaveError::InvalidPhoneNumber { number: input.to_string() }),
        }
    }

    fn parse_inner(region: Option<&Region>, input: &str) -> (r: Result<PhoneNumber, WaveError>)
        ensures
            match r {
                Ok(p) => accepts_number(crate::phone::region_code(region), input@) && p@
                    == number_e164(crate::phone::region_code(region), input@),
                Err(e) => !accepts_number(crate::phone::region_code(region), input@)
                    && is_invalid_number_error(e, input@),
            },
    {
        let parsed = match parse_number(region, input) {
            Some(p) => p,
            None => return Err(WaveError::InvalidPhoneNumber { number: input.to_string() }),
        };
        if !number_valid(&parsed) {
            return Err(WaveError::InvalidPhoneNumber { number: input.to_string() });
        }
        let text = e164_text(&parsed);
        proof {
            let reg = crate::phone::region_code(region);
            assert(accepts_number(reg, input@) && number_e164(reg, input@) == text@);
        }
        Ok(PhoneNumber(text))
    }

    /// The E.164 text of the number: a `+` and digits, written by the
    /// `phonenumber` formatter for an input that it accepted.
    pub fn as_str(&self) -> (s: &str)
        ensures
            s@ == self@,
            is_e164_text(self@),
            exists|region: Option<Seq<char>>, input: Seq<char>|
                accepts_number(region, input) && #[trigger] number_e164(region, input) == self@,
    {
        proof {
            use_type_invariant(self);
        }
        self.0.as_str()
    }
}

/// The E.164 text of a number.
impl From<PhoneNumber> for String {
    fn from(p: PhoneNumber) -> (s: String) {
        p.0
    }
}

impl vstd::std_specs::convert::FromSpecImpl<PhoneNumber> for String {
    open spec fn obeys_from_spec() -> bool {
        true
    }

    closed spec fn from_spec(p: PhoneNumber) -> String {
        p.0
    }
}

/// Opaque identifier of a transaction, as returned by the operator.
#[derive(Debug, Clone, PartialEq, Eq, Hash)]
pub struct TransactionId(String);

impl View for TransactionId {
    type V = Seq<char>;

    closed spec fn view(&self) -> Seq<char> {
        self.0@
    }
}

impl TransactionId {
    pub fn new(id: &str) -> (t: TransactionId)
        ensures
            t@ == id@,
    {
        TransactionId(id.to_string())
    }

    /// Takes ownership of an identifier already held as a `String`.
    pub fn from_string(id: String) -> (t: TransactionId)
        ensures
            t@ == id@,
    {
        TransactionId(id)
    }

    pub fn as_str(&self) -> (s: &str)
        ensures
            s@ == self@,
    {
        self.0.as_str()
    }
}

/// Takes ownership of an identifier held as a `String`.
impl From<String> for TransactionId {
    fn from(id: String) -> (t: TransactionId) {
        TransactionId(id)
    }
}

impl vstd::std_specs::convert::FromSpecImpl<String> for TransactionId {
    open spec fn obeys_from_spec() -> bool {
        true
    }

    closed spec fn from_spec(id: String) -> TransactionId {
        TransactionId(id)
    }
}

/// Lemma: the conversions between the identifiers and their text keep the
/// text: a number becomes its E.164 text, a `String` the identifier it
/// holds.
pub proof fn lemma_conversions_keep_text(p: PhoneNumber, id: String)
    ensures
        <String as vstd::std_specs::convert::FromSpec<PhoneNumber>>::from_spec(p)@ == p@,
        <TransactionId as vstd::std_specs::convert::FromSpec<String>>::from_spec(id)@ == id@,
{
}

/// Status of a transaction.
///
/// Mobile-money payments are asynchronous: a transaction starts `Pending`
/// and reaches its final status by webhook or polling, once the user has
/// confirmed (or not) on their phone.
#[derive(Debug, Clone, Copy, PartialEq, Eq, Structural, Hash)]
pub enum TransactionStatus {
    /// Initiated, waiting for the user's confirmation.
    Pending,
    /// Confirmed and debited.
    Successful,
    /// Refused by the operator or the user.
    Failed,
    /// Cancelled before confirmation.
    Cancelled,
    /// Expired without confirmation in time.
    Expired,
}

impl TransactionStatus {
    /// `true` when the status will not change any more (no need to poll).
    pub fn is_final(&self) -> (b: bool)
        ensures
            b == !(*self is Pending),
    {
        match self {
            TransactionStatus::Pending => false,
            _ => true,
        }
    }
}

/// A transaction as seen by the operator.
#[derive(Debug, Clone, PartialEq, Eq)]
pub struct Transaction {
    pub id: TransactionId,
    /// Provider name (`"wave"`, `"orange"`, `"mtn"`, `"moov"`).
    pub provider: String,
    pub status: TransactionStatus,
    pub amount: Money,
    /// Counterparty (recipient of a payment, sender of a receipt).
    pub counterparty: Option<PhoneNumber>,
    pub note: Option<String>,
    /// RFC 3339 timestamp as returned by the operator's API.
    pub created_at: String,
}

/// A payment initiation request.
#[derive(Debug, Clone, PartialEq, Eq)]
pub struct PaymentRequest {
    pub to: PhoneNumber,
    pub amount: Money,
    pub note: Option<String>,
    /// Client-side idempotency reference: replaying the same reference must
    /// not create a second payment at the operator.
    pub reference: Option<String>,
}

/// `o` holds a string whose characters are `s`.
pub open spec fn holds_text(o: Option<String>, s: Seq<char>) -> bool {
    o matches Some(x) && x@ == s
}

impl PaymentRequest {
    pub fn new(to: PhoneNumber, amount: Money) -> (r: PaymentRequest)
        ensures
            r.to == to,
            r.amount == amount,
            r.note is None,
            r.reference is None,
    {
        PaymentRequest { to, amount, note: None, reference: None }
    }

    /// Attaches a free-form note, replacing any earlier one.
    pub fn with_note(self, note: &str) -> (r: PaymentRequest)
        ensures
            r.to == self.to,
            r.amount == self.amount,
            r.reference == self.reference,
            holds_text(r.note, note@),
    {
        PaymentRequest { note: Some(note.to_string()), ..self }
    }

    /// Attaches an idempotency reference, replacing any earlier one.
    pub fn with_reference(self, reference: &str) -> (r: PaymentRequest)
        ensures
            r.to == self.to,
            r.amount == self.amount,
            r.note == self.note,
            holds_text(r.reference, reference@),
    {
        PaymentRequest { reference: Some(reference.to_string()), ..self }
    }
}

/// Answer to a payment initiation. The initial status is almost always
/// `Pending`: follow the transaction by polling its status.
#[derive(Debug, Clone, PartialEq, Eq)]
pub struct PaymentResponse {
    pub transaction_id: TransactionId,
    pub status: TransactionStatus,
    /// Name of the provider that handled the request.
    pub provider: String,
}

/// Pagination options for listing transactions.
#[derive(Debug, Clone, PartialEq, Eq)]
pub struct ListOptions {
    /// Maximum number of transactions to return.
    pub limit: Option<u32>,
    /// Opaque pagination cursor returned by the previous call.
    pub cursor: Option<String>,
}

impl Default for ListOptions {
    fn default() -> (o: ListOptions)
        ensures
            o.limit is None,
            o.cursor is None,
    {
        ListOptions { limit: None, cursor: None }
    }
}

} // verus!
