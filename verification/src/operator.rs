//! What the four operators share: their identity, how an HTTP error answer
//! is turned into a [`WaveError`], how settings read from the environment
//! become a configuration, and how replies are collected into transactions.

use std::time::Duration;
use vstd::prelude::*;

use crate::error::WaveError;
use crate::text::{decimal, parse_u64, parse_u64_spec, push_decimal, trim, trim_end_char, trimmed, strip_end, CharClass};
use crate::types::{accepts_number, Currency, ListOptions, Money, PhoneNumber, Transaction, TransactionId, TransactionStatus};
use crate::phone::number_e164;

verus! {

broadcast use vstd::string::group_string_axioms;

/// The mobile-money operators the SDK speaks to.
#[derive(Debug, Clone, Copy, PartialEq, Eq, Structural, Hash)]
pub enum Operator {
    Wave,
    Orange,
    Mtn,
    Moov,
}

impl Operator {
    /// Short, stable provider name.
    pub open spec fn name_spec(self) -> Seq<char> {
        match self {
            Operator::Wave => "wave"@,
            Operator::Orange => "orange"@,
            Operator::Mtn => "mtn"@,
            Operator::Moov => "moov"@,
        }
    }

    pub fn name(&self) -> (s: &'static str)
        ensures
            s@ == self.name_spec(),
    {
        match self {
            Operator::Wave => "wave",
            Operator::Orange => "orange",
            Operator::Mtn => "mtn",
            Operator::Moov => "moov",
        }
    }

    /// Currency the operator works in (XOF in the WAEMU zone).
    pub fn currency(&self) -> (c: Currency)
        ensures
            c == Currency::XOF,
    {
        Currency::XOF
    }

    /// The operator's business code for an account without enough funds.
    pub open spec fn insufficient_funds_code_spec(self) -> Seq<char> {
        match self {
            Operator::Wave => "insufficient-funds"@,
            Operator::Orange => "60019"@,
            Operator::Mtn => "NOT_ENOUGH_FUNDS"@,
            Operator::Moov => "INSUFFICIENT_BALANCE"@,
        }
    }

    pub fn insufficient_funds_code(&self) -> (s: &'static str)
        ensures
            s@ == self.insufficient_funds_code_spec(),
    {
        match self {
            Operator::Wave => "insufficient-funds",
            Operator::Orange => "60019",
            Operator::Mtn => "NOT_ENOUGH_FUNDS",
            Operator::Moov => "INSUFFICIENT_BALANCE",
        }
    }

    /// The operator whose short name is `name`, if any.
    pub fn from_name(name: &str) -> (r: Option<Operator>)
        ensures
            match r {
                Some(op) => op.name_spec() == name@,
                None => forall|op: Operator| op.name_spec() != name@,
            },
    {
        proof {
            reveal_strlit("wave");
            reveal_strlit("orange");
            reveal_strlit("mtn");
            reveal_strlit("moov");
        }
        let v = crate::text::chars_of(name);
        if chars_eq(&v, "wave") {
            Some(Operator::Wave)
        } else if chars_eq(&v, "orange") {
            Some(Operator::Orange)
        } else if chars_eq(&v, "mtn") {
            Some(Operator::Mtn)
        } else if chars_eq(&v, "moov") {
            Some(Operator::Moov)
        } else {
            proof {
                assert forall|op: Operator| op.name_spec() != name@ by {
                    match op {
                        Operator::Wave => {},
                        Operator::Orange => {},
                        Operator::Mtn => {},
                        Operator::Moov => {},
                    }
                }
            }
            None
        }
    }
}

/// Law: each operator has a short name of its own (`wave`, `orange`,
/// `mtn`, `moov`), so a name designates at most one operator.
pub proof fn lemma_operator_names(a: Operator, b: Operator)
    ensures
        Operator::Wave.name_spec() == "wave"@,
        Operator::Orange.name_spec() == "orange"@,
        Operator::Mtn.name_spec() == "mtn"@,
        Operator::Moov.name_spec() == "moov"@,
        a.name_spec() == b.name_spec() ==> a == b,
{
    reveal_strlit("wave");
    reveal_strlit("orange");
    reveal_strlit("mtn");
    reveal_strlit("moov");
    if a.name_spec() == b.name_spec() && a != b {
        let (x, y) = (a.name_spec(), b.name_spec());
        assert(x.len() == y.len());
        assert(x[0] == y[0]);
    }
}

/// Law: each operator reports a lack of funds with a business code of its
/// own: `insufficient-funds` (Wave), `60019` (Orange), `NOT_ENOUGH_FUNDS`
/// (MTN), `INSUFFICIENT_BALANCE` (Moov); no two operators share one.
pub proof fn lemma_insufficient_funds_codes(a: Operator, b: Operator)
    ensures
        Operator::Wave.insufficient_funds_code_spec() == "insufficient-funds"@,
        Operator::Orange.insufficient_funds_code_spec() == "60019"@,
        Operator::Mtn.insufficient_funds_code_spec() == "NOT_ENOUGH_FUNDS"@,
        Operator::Moov.insufficient_funds_code_spec() == "INSUFFICIENT_BALANCE"@,
        a.insufficient_funds_code_spec() == b.insufficient_funds_code_spec() ==> a == b,
{
    reveal_strlit("insufficient-funds");
    reveal_strlit("60019");
    reveal_strlit("NOT_ENOUGH_FUNDS");
    reveal_strlit("INSUFFICIENT_BALANCE");
    if a.insufficient_funds_code_spec() == b.insufficient_funds_code_spec() && a != b {
        let (x, y) = (a.insufficient_funds_code_spec(), b.insufficient_funds_code_spec());
        assert(x.len() == y.len());
        assert(x[0] == y[0]);
    }
}

/// Whether the characters `v` spell `s`.
pub fn chars_eq(v: &Vec<char>, s: &str) -> (b: bool)
    ensures
        b == (v@ == s@),
{
    let w = crate::text::chars_of(s);
    if v.len() != w.len() {
        return false;
    }
    let mut i: usize = 0;
    while i < v.len()
        invariant
            v@.len() == w@.len(),
            w@ == s@,
            i <= v@.len(),
            forall|j: int| 0 <= j < i ==> v@[j] == w@[j],
        decreases v@.len() - i,
    {
        if v[i] != w[i] {
            return false;
        }
        i = i + 1;
    }
    assert(v@ =~= w@);
    true
}

/// Whether two strings hold the same characters.
pub fn str_eq(a: &str, b: &str) -> (r: bool)
    ensures
        r == (a@ == b@),
{
    chars_eq(&crate::text::chars_of(a), b)
}

// ---------------------------------------------------------------------------
// HTTP error answers
// ---------------------------------------------------------------------------

/// The code and message of an operator's JSON error body, once decoded from
/// the operator's own field names.
#[derive(Debug, Clone, PartialEq, Eq)]
pub struct ErrorBody {
    pub code: String,
    pub message: String,
}

/// Wait announced by a `429` answer: its `Retry-After` header read as whole
/// seconds, 60 when it is missing or unreadable.
pub open spec fn retry_after_secs(header: Option<Seq<char>>) -> u64 {
    match header {
        Some(h) => match parse_u64_spec(h) {
            Some(n) => n,
            None => 60,
        },
        None => 60,
    }
}

/// The error that an HTTP error answer stands for, the same for every
/// operator: `401`/`403` refused credentials, `402` insufficient funds,
/// `408` the configured timeout, `429` a rate limit; otherwise the decoded
/// body decides.
pub open spec fn error_answer(
    op: Operator,
    status: u16,
    timeout_secs: u64,
    retry_after: Option<Seq<char>>,
    body: Option<(Seq<char>, Seq<char>)>,
    e: WaveError,
) -> bool {
    if status == 401 || status == 403 {
        crate::error::is_auth_error(e, op.name_spec())
    } else if status == 402 {
        e == WaveError::InsufficientFunds
    } else if status == 408 {
        e == WaveError::Timeout { seconds: timeout_secs }
    } else if status == 429 {
        e == WaveError::RateLimited { retry_after_secs: retry_after_secs(retry_after) }
    } else {
        match body {
            Some((code, message)) => if code == op.insufficient_funds_code_spec() {
                e == WaveError::InsufficientFunds
            } else {
                crate::error::is_api_error(e, op.name_spec(), code, message)
            },
            None => crate::error::is_api_error(
                e,
                op.name_spec(),
                decimal(status as nat),
                "réponse d'erreur non JSON"@,
            ),
        }
    }
}

pub open spec fn opt_text(o: Option<&str>) -> Option<Seq<char>> {
    match o {
        Some(s) => Some(s@),
        None => None,
    }
}

pub open spec fn body_view(b: Option<ErrorBody>) -> Option<(Seq<char>, Seq<char>)> {
    match b {
        Some(b) => Some((b.code@, b.message@)),
        None => None,
    }
}

/// Translates an operator's HTTP error answer into a [`WaveError`]: `401` and
/// `403` are refused credentials, `402` insufficient funds, `408` a timeout
/// after the configured `timeout_secs`, `429` a rate limit, and otherwise the
/// decoded body decides (insufficient funds, or the operator's own code and
/// message); a body that is not the operator's JSON error gives the status
/// code as error code.
pub fn error_from_response(
    op: Operator,
    status: u16,
    timeout_secs: u64,
    retry_after: Option<&str>,
    body: Option<ErrorBody>,
) -> (e: WaveError)
    ensures
        error_answer(op, status, timeout_secs, opt_text(retry_after), body_view(body), e),
{
    if status == 401 || status == 403 {
        return WaveError::AuthFailed { provider: op.name().to_string() };
    }
    if status == 402 {
        return WaveError::InsufficientFunds;
    }
    if status == 408 {
        return WaveError::Timeout { seconds: timeout_secs };
    }
    if status == 429 {
        let secs = match retry_after {
            Some(h) => match parse_u64(h) {
                Some(n) => n,
                None => 60,
            },
            None => 60,
        };
        return WaveError::RateLimited { retry_after_secs: secs };
    }
    match body {
        Some(b) => {
            if str_eq(b.code.as_str(), op.insufficient_funds_code()) {
                WaveError::InsufficientFunds
            } else {
                WaveError::ApiError { provider: op.name().to_string(), code: b.code, message: b.message }
            }
        },
        None => {
            let mut code = String::new();
            push_decimal(&mut code, status as u64);
            assert(code@ =~= decimal(status as nat));
            WaveError::ApiError {
                provider: op.name().to_string(),
                code,
                message: "réponse d'erreur non JSON".to_string(),
            }
        },
    }
}

/// Law: an HTTP error answer means the same for every operator, whatever
/// its body. `401` and `403` are refused credentials naming the operator,
/// `402` insufficient funds, `408` a timeout after the configured seconds,
/// `429` a rate limit (60 s when no wait is announced); refused credentials,
/// timeouts and rate limits come from these statuses only. Any other answer
/// is insufficient funds exactly when its body carries the operator's own
/// funds code; otherwise it is an API error of the operator that keeps the
/// body's code and message, or, without a readable body, whose code reads
/// back as the status number.
pub proof fn lemma_error_answer_meaning(
    op: Operator,
    status: u16,
    timeout_secs: u64,
    retry_after: Option<Seq<char>>,
    body: Option<(Seq<char>, Seq<char>)>,
    e: WaveError,
)
    requires
        error_answer(op, status, timeout_secs, retry_after, body, e),
    ensures
        status == 401 || status == 403 ==> (e matches WaveError::AuthFailed { provider }
            && provider@ == op.name_spec()),
        status == 402 ==> e == WaveError::InsufficientFunds,
        status == 408 ==> e == (WaveError::Timeout { seconds: timeout_secs }),
        status == 429 ==> e is RateLimited,
        status == 429 && retry_after is None ==> e == (WaveError::RateLimited { retry_after_secs: 60 }),
        status == 429 && retry_after is Some && parse_u64_spec(retry_after->0) is Some ==> e == (
        WaveError::RateLimited { retry_after_secs: parse_u64_spec(retry_after->0)->0 }),
        e is AuthFailed ==> status == 401 || status == 403,
        e is Timeout ==> status == 408,
        e is RateLimited ==> status == 429,
        status != 401 && status != 403 && status != 402 && status != 408 && status != 429 ==> {
            &&& body matches Some((code, message)) ==> if code == op.insufficient_funds_code_spec() {
                e == WaveError::InsufficientFunds
            } else {
                e matches WaveError::ApiError { provider: p, code: c, message: m } && p@
                    == op.name_spec() && c@ == code && m@ == message
            }
            &&& body is None ==> (e matches WaveError::ApiError { provider: p, code: c, .. } && p@
                == op.name_spec() && parse_u64_spec(c@) == Some(status as u64))
        },
{
    crate::text::lemma_parse_decimal_roundtrip(status as u64);
}

/// A transport failure: a timeout becomes [`WaveError::Timeout`] with the
/// configured timeout in whole seconds, anything else a network error.
pub fn transport_error(timed_out: bool, timeout_secs: u64, description: String) -> (e: WaveError)
    ensures
        timed_out ==> e == (WaveError::Timeout { seconds: timeout_secs }),
        !timed_out ==> e == WaveError::Network(description),
{
    if timed_out {
        WaveError::Timeout { seconds: timeout_secs }
    } else {
        WaveError::Network(description)
    }
}


// ---------------------------------------------------------------------------
// Settings read from the environment
// ---------------------------------------------------------------------------

/// A setting counts as given when it is present and not blank.
pub open spec fn setting_given(value: Option<Seq<char>>) -> bool {
    value matches Some(v) && trimmed(v).len() > 0
}

/// Message of the error for a missing required setting.
pub open spec fn missing_setting_message(name: Seq<char>) -> Seq<char> {
    "variable d'environnement "@ + name + " manquante"@
}

/// Takes a required setting, or reports it missing as a `config` error of
/// the operator.
pub fn require_setting(op: Operator, name: &str, value: Option<&str>) -> (r: Result<String, WaveError>)
    ensures
        match r {
            Ok(s) => setting_given(opt_text(value)) && opt_text(value) == Some(s@),
            Err(e) => !setting_given(opt_text(value)) && crate::error::is_api_error(
                e,
                op.name_spec(),
                "config"@,
                missing_setting_message(name@),
            ),
        },
{
    if let Some(v) = value {
        let t = trim(v);
        if !t.as_str().is_empty() {
            return Ok(v.to_string());
        }
    }
    let mut message = "variable d'environnement ".to_string();
    message.append(name);
    message.append(" manquante");
    Err(WaveError::ApiError { provider: op.name().to_string(), code: "config".to_string(), message })
}

/// Whether the sandbox is targeted: always, unless the setting is
/// explicitly `false` or `0`.
pub open spec fn sandbox_requested(value: Option<Seq<char>>) -> bool {
    match value {
        Some(v) => !(trimmed(v) == "false"@ || trimmed(v) == "0"@),
        None => true,
    }
}

/// Law: the sandbox is the default: it is left only for a setting that
/// says `false` or `0`, blanks around it ignored; an absent setting, `true`,
/// `1` or anything else keeps it.
pub proof fn lemma_sandbox_by_default(v: Seq<char>)
    ensures
        sandbox_requested(None),
        !sandbox_requested(Some("false"@)),
        !sandbox_requested(Some("0"@)),
        sandbox_requested(Some(v)) <==> (trimmed(v) != "false"@ && trimmed(v) != "0"@),
        !sandbox_requested(Some(v)) ==> trimmed(v).len() > 0,
{
    reveal_strlit("false");
    reveal_strlit("0");
    assert(trimmed("false"@) == "false"@);
    assert(trimmed("0"@) == "0"@);
}

pub fn sandbox_enabled(value: Option<&str>) -> (b: bool)
    ensures
        b == sandbox_requested(opt_text(value)),
{
    match value {
        Some(v) => {
            let t = trim(v);
            !(str_eq(t.as_str(), "false") || str_eq(t.as_str(), "0"))
        },
        None => true,
    }
}

/// The base URL that a setting imposes: the trimmed value without trailing
/// slashes, when the value is not blank.
pub open spec fn base_url_override_spec(value: Option<Seq<char>>) -> Option<Seq<char>> {
    match value {
        Some(v) => if trimmed(v).len() > 0 {
            Some(strip_end(trimmed(v), CharClass::Exactly('/')))
        } else {
            None
        },
        None => None,
    }
}

pub fn base_url_override(value: Option<&str>) -> (r: Option<String>)
    ensures
        match r {
            Some(s) => base_url_override_spec(opt_text(value)) == Some(s@),
            None => base_url_override_spec(opt_text(value)) is None,
        },
{
    match value {
        Some(v) => {
            let t = trim(v);
            if !t.as_str().is_empty() {
                Some(trim_end_char(t.as_str(), '/'))
            } else {
                None
            }
        },
        None => None,
    }
}

/// The duration of `secs` whole seconds, as `Duration::from_secs` builds it.
pub uninterp spec fn whole_seconds(secs: u64) -> Duration;

/// `Duration::from_secs`.
#[verifier::external_body]
pub(crate) fn duration_from_secs(secs: u64) -> (d: Duration)
    ensures
        d == whole_seconds(secs),
{
    Duration::from_secs(secs)
}

/// `Duration` is `Copy`: its `clone` gives back the same duration.
pub assume_specification[ <std::time::Duration as Clone>::clone ](d: &Duration) -> (r: Duration)
    ensures
        r == *d,
;

/// HTTP timeout of every operator unless configured otherwise: the API
/// waits for the user to confirm on their phone.
pub const DEFAULT_TIMEOUT_SECS: u64 = 90;

// ---------------------------------------------------------------------------
// Debug text of configurations, secrets redacted
// ---------------------------------------------------------------------------

/// What `format!("{:?}", s)` writes for a string: quoted and escaped.
pub uninterp spec fn debug_quoted(s: Seq<char>) -> Seq<char>;

/// A character that a string's debug text writes as itself: printable
/// ASCII (`0x20..=0x7e`) other than the double quote and the backslash.
pub open spec fn plain_debug_char(c: char) -> bool {
    ' ' <= c && c <= '~' && c != '"' && c != '\\'
}

/// A string made of plain characters only.
pub open spec fn plain_text(s: Seq<char>) -> bool {
    forall|i: int| 0 <= i < s.len() ==> plain_debug_char(#[trigger] s[i])
}

/// The string between double quotes.
pub open spec fn quoted(s: Seq<char>) -> Seq<char> {
    seq!['"'] + s + seq!['"']
}

/// The debug text of a string: written out for a plain string, named
/// otherwise.
pub open spec fn shown(s: Seq<char>) -> Seq<char> {
    if plain_text(s) {
        quoted(s)
    } else {
        debug_quoted(s)
    }
}

/// `<str as Debug>::fmt`, written out with `format!`. The text is the
/// string between double quotes with each character escaped as
/// `char::escape_debug` does, which leaves printable ASCII other than `"`
/// and `\` unchanged; what it writes for other characters is left to the
/// name `debug_quoted`.
#[verifier::external_body]
pub(crate) fn debug_str(s: &str) -> (r: String)
    ensures
        r@ == debug_quoted(s@),
        plain_text(s@) ==> r@ == quoted(s@),
{
    format!("{:?}", s)
}

/// What `format!("{:?}", d)` writes for a duration (such as `90s`).
pub uninterp spec fn duration_debug(d: Duration) -> Seq<char>;

/// `<Duration as Debug>::fmt`, written out with `format!`: a function of the
/// duration alone.
#[verifier::external_body]
pub(crate) fn debug_duration(d: &Duration) -> (r: String)
    ensures
        r@ == duration_debug(*d),
{
    format!("{:?}", d)
}

/// `name: value, name: value` for the fields of a debug text.
pub open spec fn debug_fields_text(fields: Seq<(Seq<char>, Seq<char>)>) -> Seq<char>
    decreases fields.len(),
{
    if fields.len() == 0 {
        Seq::empty()
    } else if fields.len() == 1 {
        fields[0].0 + ": "@ + fields[0].1
    } else {
        debug_fields_text(fields.drop_last()) + ", "@ + fields.last().0 + ": "@ + fields.last().1
    }
}

/// What `Formatter::debug_struct` writes: `Name { a: x, b: y }`.
pub open spec fn debug_struct_text(name: Seq<char>, fields: Seq<(Seq<char>, Seq<char>)>) -> Seq<char> {
    if fields.len() == 0 {
        name
    } else {
        name + " { "@ + debug_fields_text(fields) + " }"@
    }
}

pub open spec fn pairs_view(v: Seq<(String, String)>) -> Seq<(Seq<char>, Seq<char>)> {
    v.map_values(|p: (String, String)| (p.0@, p.1@))
}

/// Writes a struct's debug text from its name and its already written fields.
pub fn debug_struct(name: &str, fields: &Vec<(String, String)>) -> (r: String)
    ensures
        r@ == debug_struct_text(name@, pairs_view(fields@)),
{
    let mut r = name.to_string();
    if fields.len() == 0 {
        return r;
    }
    r.append(" { ");
    let ghost start = r@;
    let mut i: usize = 0;
    while i < fields.len()
        invariant
            i <= fields@.len(),
            fields@.len() > 0,
            start == name@ + " { "@,
            r@ == start + debug_fields_text(pairs_view(fields@).take(i as int)),
        decreases fields@.len() - i,
    {
        let ghost before = pairs_view(fields@).take(i as int);
        let ghost after = pairs_view(fields@).take(i + 1);
        assert(after.drop_last() =~= before);
        if i > 0 {
            r.append(", ");
        }
        r.append(fields[i].0.as_str());
        r.append(": ");
        r.append(fields[i].1.as_str());
        proof {
            if i == 0 {
                assert(before =~= Seq::<(Seq<char>, Seq<char>)>::empty());
                assert(debug_fields_text(before) =~= Seq::<char>::empty());
            }
            assert(r@ =~= start + debug_fields_text(after));
        }
        i = i + 1;
    }
    assert(pairs_view(fields@).take(fields@.len() as int) =~= pairs_view(fields@));
    r.append(" }");
    r
}

// ---------------------------------------------------------------------------
// Listing
// ---------------------------------------------------------------------------

/// The query of a transaction listing: the account under `key`, then the
/// limit and the cursor when they are given.
pub open spec fn list_query_spec(
    key: Seq<char>,
    account: Seq<char>,
    limit: Option<u32>,
    cursor: Option<Seq<char>>,
) -> Seq<(Seq<char>, Seq<char>)> {
    seq![(key, account)] + match limit {
        Some(l) => seq![("limit"@, decimal(l as nat))],
        None => Seq::empty(),
    } + match cursor {
        Some(c) => seq![("cursor"@, c)],
        None => Seq::empty(),
    }
}

pub open spec fn opt_string(o: Option<String>) -> Option<Seq<char>> {
    match o {
        Some(s) => Some(s@),
        None => None,
    }
}

/// Law: a listing query starts with the account under its key, then
/// carries the limit when one is asked for, whose text reads back as that
/// limit, and the cursor when one is given, each independently of the other;
/// no other pair is added.
pub proof fn lemma_list_query_pairs(
    key: Seq<char>,
    account: Seq<char>,
    limit: Option<u32>,
    cursor: Option<Seq<char>>,
)
    ensures
        ({
            let q = list_query_spec(key, account, limit, cursor);
            &&& q.len() == 1 + (if limit is Some { 1int } else { 0 }) + (if cursor is Some { 1int } else { 0 })
            &&& q[0] == (key, account)
            &&& limit matches Some(l) ==> exists|i: int| 1 <= i < q.len() && q[i].0 == "limit"@
                && parse_u64_spec(#[trigger] q[i].1) == Some(l as u64)
            &&& cursor matches Some(c) ==> q.contains(("cursor"@, c))
            &&& limit is None ==> forall|i: int| 1 <= i < q.len() ==> #[trigger] q[i].0 != "limit"@
            &&& cursor is None ==> forall|i: int| 1 <= i < q.len() ==> #[trigger] q[i].0 != "cursor"@
        }),
{
    reveal_strlit("limit");
    reveal_strlit("cursor");
    let q = list_query_spec(key, account, limit, cursor);
    if let Some(l) = limit {
        crate::text::lemma_parse_decimal_roundtrip(l as u64);
        assert(q[1].0 == "limit"@ && parse_u64_spec(q[1].1) == Some(l as u64));
    }
    if let Some(c) = cursor {
        assert(q[q.len() - 1] == ("cursor"@, c));
    }
    if limit is None {
        assert forall|i: int| 1 <= i < q.len() implies #[trigger] q[i].0 != "limit"@ by {
            assert(q[i].0 == "cursor"@);
        }
    }
    if cursor is None {
        assert forall|i: int| 1 <= i < q.len() implies #[trigger] q[i].0 != "cursor"@ by {
            assert(q[i].0 == "limit"@);
        }
    }
}

pub fn list_query(key: &str, account: String, opts: ListOptions) -> (q: Vec<(String, String)>)
    ensures
        pairs_view(q@) == list_query_spec(key@, account@, opts.limit, opt_string(opts.cursor)),
{
    let mut q: Vec<(String, String)> = Vec::new();
    q.push((key.to_string(), account));
    if let Some(limit) = opts.limit {
        let mut digits = String::new();
        push_decimal(&mut digits, limit as u64);
        assert(digits@ =~= decimal(limit as nat));
        q.push(("limit".to_string(), digits));
    }
    if let Some(cursor) = opts.cursor {
        q.push(("cursor".to_string(), cursor));
    }
    assert(pairs_view(q@) =~= list_query_spec(key@, account@, opts.limit, opt_string(opts.cursor)));
    q
}

// ---------------------------------------------------------------------------
// Replies that become transactions
// ---------------------------------------------------------------------------

/// An operator's reply that describes one transaction.
pub trait IntoTransaction: Sized {
    /// Whether the reply converts into a transaction.
    spec fn converts(&self) -> bool;

    /// `t` is the transaction that the reply converts into.
    spec fn converts_to(&self, t: Transaction) -> bool;

    /// `e` is the error that stops the conversion.
    spec fn fails_with(&self, e: WaveError) -> bool;

    fn into_transaction(self) -> (r: Result<Transaction, WaveError>)
        ensures
            match r {
                Ok(t) => self.converts() && self.converts_to(t),
                Err(e) => !self.converts() && self.fails_with(e),
            },
    ;
}

/// Converts every reply in order, stopping at the first one that fails.
pub fn collect_transactions<R: IntoTransaction>(replies: Vec<R>) -> (r: Result<Vec<Transaction>, WaveError>)
    ensures
        match r {
            Ok(v) => v@.len() == replies@.len() && forall|i: int|
                0 <= i < replies@.len() ==> #[trigger] replies@[i].converts() && replies@[i].converts_to(
                    v@[i],
                ),
            Err(e) => exists|k: int|
                0 <= k < replies@.len() && !#[trigger] replies@[k].converts() && replies@[k].fails_with(e)
                    && forall|j: int| 0 <= j < k ==> #[trigger] replies@[j].converts(),
        },
{
    let ghost all = replies@;
    let mut rest = replies;
    let mut out: Vec<Transaction> = Vec::new();
    while rest.len() > 0
        invariant
            all == replies@,
            out@.len() + rest@.len() == all.len(),
            rest@ == all.skip(out@.len() as int),
            forall|i: int| 0 <= i < out@.len() ==> #[trigger] all[i].converts() && all[i].converts_to(out@[i]),
        decreases rest@.len(),
    {
        let ghost k = out@.len() as int;
        let reply = rest.remove(0);
        assert(reply == all[k]);
        match reply.into_transaction() {
            Ok(t) => {
                out.push(t);
                assert(all[k].converts() && all[k].converts_to(out@[k]));
                assert(rest@ =~= all.skip(out@.len() as int));
            },
            Err(e) => {
                assert(!all[k].converts() && all[k].fails_with(e));
                assert(forall|j: int| 0 <= j < k ==> #[trigger] all[j].converts());
                return Err(e);
            },
        }
    }
    Ok(out)
}


/// A counterparty text is acceptable: absent, or a valid number.
pub open spec fn counterparty_ok(raw: Option<Seq<char>>) -> bool {
    match raw {
        Some(r) => accepts_number(None, r),
        None => true,
    }
}

/// `got` is the counterparty parsed from the text `raw`.
pub open spec fn counterparty_matches(raw: Option<Seq<char>>, got: Option<PhoneNumber>) -> bool {
    match raw {
        Some(r) => got matches Some(p) && p@ == number_e164(None, r),
        None => got is None,
    }
}

/// `e` is the error for the counterparty text `raw`.
pub open spec fn bad_counterparty(raw: Option<Seq<char>>, e: WaveError) -> bool {
    match raw {
        Some(r) => crate::error::is_invalid_number_error(e, r),
        None => false,
    }
}

/// `t` is the transaction of operator `op` described by these fields.
pub open spec fn describes(
    t: Transaction,
    op: Operator,
    id: Seq<char>,
    status: TransactionStatus,
    amount: Money,
    counterparty: Option<Seq<char>>,
    note: Option<String>,
    created_at: Seq<char>,
) -> bool {
    &&& t.id@ == id
    &&& t.provider@ == op.name_spec()
    &&& t.status == status
    &&& t.amount == amount
    &&& counterparty_matches(counterparty, t.counterparty)
    &&& t.note == note
    &&& t.created_at@ == created_at
}

/// Parses a counterparty number given as text; absent stays absent.
pub fn parse_counterparty(raw: Option<String>) -> (r: Result<Option<PhoneNumber>, WaveError>)
    ensures
        match r {
            Ok(p) => counterparty_ok(opt_string(raw)) && counterparty_matches(opt_string(raw), p),
            Err(e) => !counterparty_ok(opt_string(raw)) && bad_counterparty(opt_string(raw), e),
        },
{
    match raw {
        Some(text) => match PhoneNumber::parse(text.as_str()) {
            Ok(p) => Ok(Some(p)),
            Err(e) => Err(e),
        },
        None => Ok(None),
    }
}

/// Builds a transaction of operator `op`.
pub fn build_transaction(
    op: Operator,
    id: TransactionId,
    status: TransactionStatus,
    amount: Money,
    counterparty: Option<PhoneNumber>,
    note: Option<String>,
    created_at: String,
) -> (t: Transaction)
    ensures
        t.id == id,
        t.provider@ == op.name_spec(),
        t.status == status,
        t.amount == amount,
        t.counterparty == counterparty,
        t.note == note,
        t.created_at == created_at,
{
    Transaction {
        id,
        provider: op.name().to_string(),
        status,
        amount,
        counterparty,
        note,
        created_at,
    }
}

/// The answer to a payment initiation of operator `op`.
pub fn payment_response(op: Operator, id: String, status: TransactionStatus) -> (r: crate::types::PaymentResponse)
    ensures
        r.transaction_id@ == id@,
        r.status == status,
        r.provider@ == op.name_spec(),
{
    crate::types::PaymentResponse {
        transaction_id: TransactionId::from_string(id),
        status,
        provider: op.name().to_string(),
    }
}

/// The header that carries the client's idempotency reference of a
/// payment: `Idempotency-Key` for Wave and Moov, `X-Reference-Id` for
/// Orange. MTN puts the client's reference in the body and uses
/// `X-Reference-Id` for the reference it makes up itself.
pub open spec fn reference_header_name(op: Operator) -> Option<Seq<char>> {
    match op {
        Operator::Wave => Some("Idempotency-Key"@),
        Operator::Orange => Some("X-Reference-Id"@),
        Operator::Mtn => None,
        Operator::Moov => Some("Idempotency-Key"@),
    }
}

/// Law: Wave and Moov take a client reference in `Idempotency-Key`, Orange
/// in `X-Reference-Id`; MTN alone takes none in a header (the reference
/// travels in its body).
pub proof fn lemma_reference_header_names(op: Operator)
    ensures
        reference_header_name(op) is None <==> op == Operator::Mtn,
        op == Operator::Wave || op == Operator::Moov ==> reference_header_name(op) == Some(
            "Idempotency-Key"@,
        ),
        op == Operator::Orange ==> reference_header_name(op) == Some("X-Reference-Id"@),
{
}

/// The idempotency header of a payment request, when the operator takes
/// one and the request carries a reference.
pub fn reference_header(op: Operator, request: &crate::types::PaymentRequest) -> (r: Option<(String, String)>)
    ensures
        match r {
            Some((name, value)) => reference_header_name(op) == Some(name@) && opt_string(
                request.reference,
            ) == Some(value@),
            None => reference_header_name(op) is None || request.reference is None,
        },
{
    let name = match op {
        Operator::Wave => "Idempotency-Key",
        Operator::Orange => "X-Reference-Id",
        Operator::Mtn => return None,
        Operator::Moov => "Idempotency-Key",
    };
    match &request.reference {
        Some(reference) => Some((name.to_string(), reference.clone())),
        None => None,
    }
}

/// How a request authenticates: a Bearer token, or HTTP Basic credentials.
pub enum Credentials {
    Bearer(String),
    Basic { user: String, password: String },
}

/// The Bearer credentials of an access token.
pub fn bearer(token: &str) -> (c: Credentials)
    ensures
        c matches Credentials::Bearer(t) && t@ == token@,
{
    Credentials::Bearer(token.to_string())
}

/// The HTTP Basic credentials of a user and its password.
pub fn basic(user: &str, password: &str) -> (c: Credentials)
    ensures
        c matches Credentials::Basic { user: u, password: p } && u@ == user@ && p@ == password@,
{
    Credentials::Basic { user: user.to_string(), password: password.to_string() }
}

/// A copy of an optional string.
pub fn copy_opt(o: &Option<String>) -> (r: Option<String>)
    ensures
        opt_string(r) == opt_string(*o),
{
    match o {
        Some(s) => Some(s.clone()),
        None => None,
    }
}

/// The view of an optional borrowed string.
pub fn opt_str(o: &Option<String>) -> (r: Option<&str>)
    ensures
        opt_text(r) == opt_string(*o),
{
    match o {
        Some(s) => Some(s.as_str()),
        None => None,
    }
}

/// `base` followed by `path`.
pub fn join(base: &str, path: &str) -> (r: String)
    ensures
        r@ == base@ + path@,
{
    let mut r = base.to_string();
    r.append(path);
    r
}

} // verus!
