//! What the `wave` command-line tool decides and writes, apart from the
//! terminal itself: the provider catalogue, which provider a name selects,
//! and the text of amounts, statuses and messages.

use vstd::prelude::*;

use crate::error::is_invalid_number_error;
use crate::operator::Operator;
use crate::text::{decimal, push_char, u64_to_decimal};
use crate::types::{accepts_number, Money, PaymentResponse, PhoneNumber, Transaction, TransactionStatus};

verus! {

broadcast use vstd::string::group_string_axioms;

/// One line of the provider catalogue.
#[derive(Debug, Clone, PartialEq, Eq)]
pub struct ProviderInfo {
    pub name: &'static str,
    pub currency: &'static str,
    pub available: bool,
}

/// The operators in catalogue order.
pub open spec fn catalog_order() -> Seq<Operator> {
    seq![Operator::Wave, Operator::Orange, Operator::Mtn, Operator::Moov]
}

/// `info` is the catalogue line of `op`, available or not.
pub open spec fn line_of(info: ProviderInfo, op: Operator, available: bool) -> bool {
    &&& info.name@ == op.name_spec()
    &&& info.currency@ == "XOF"@
    &&& info.available == available
}

fn info_line(op: Operator, available: bool) -> (info: ProviderInfo)
    ensures
        line_of(info, op, available),
{
    ProviderInfo { name: op.name(), currency: "XOF", available }
}

/// The providers the SDK offers, all available, in catalogue order.
pub fn provider_catalog() -> (v: Vec<ProviderInfo>)
    ensures
        v@.len() == 4,
        forall|i: int| 0 <= i < 4 ==> line_of(#[trigger] v@[i], catalog_order()[i], true),
{
    let mut v: Vec<ProviderInfo> = Vec::new();
    v.push(info_line(Operator::Wave, true));
    v.push(info_line(Operator::Orange, true));
    v.push(info_line(Operator::Mtn, true));
    v.push(info_line(Operator::Moov, true));
    v
}

/// Lemma: every operator appears in the catalogue, and a name selects a
/// provider exactly when it is one of the catalogue's names.
pub proof fn lemma_catalog_covers_operators(op: Operator)
    ensures
        catalog_order().contains(op),
        exists|i: int| 0 <= i < 4 && #[trigger] catalog_order()[i].name_spec() == op.name_spec(),
{
    match op {
        Operator::Wave => {
            assert(catalog_order()[0] == op);
            assert(catalog_order()[0].name_spec() == op.name_spec());
        },
        Operator::Orange => {
            assert(catalog_order()[1] == op);
            assert(catalog_order()[1].name_spec() == op.name_spec());
        },
        Operator::Mtn => {
            assert(catalog_order()[2] == op);
            assert(catalog_order()[2].name_spec() == op.name_spec());
        },
        Operator::Moov => {
            assert(catalog_order()[3] == op);
            assert(catalog_order()[3].name_spec() == op.name_spec());
        },
    }
}

/// Lemma: the provider a name selects is the one whose name it is.
pub proof fn lemma_name_selects_its_operator(op: Operator)
    ensures
        forall|other: Operator| #[trigger] other.name_spec() == op.name_spec() ==> other == op,
{
    reveal_strlit("wave");
    reveal_strlit("orange");
    reveal_strlit("mtn");
    reveal_strlit("moov");
    assert("wave"@.len() == 4 && "wave"@[0] == 'w');
    assert("orange"@.len() == 6 && "orange"@[0] == 'o');
    assert("mtn"@.len() == 3 && "mtn"@[0] == 'm');
    assert("moov"@.len() == 4 && "moov"@[0] == 'm');
    assert forall|other: Operator| #[trigger] other.name_spec() == op.name_spec() implies other == op by {
        match other {
            Operator::Wave => {},
            Operator::Orange => {},
            Operator::Mtn => {},
            Operator::Moov => {},
        }
        match op {
            Operator::Wave => {},
            Operator::Orange => {},
            Operator::Mtn => {},
            Operator::Moov => {},
        }
    }
}

/// The message for a name that selects no provider.
pub open spec fn unknown_provider_text(name: Seq<char>) -> Seq<char> {
    "provider inconnu : '"@ + name + "' — disponibles : wave, orange, mtn, moov"@
}

/// The provider a name selects, or the message saying which names exist.
pub fn select_provider(name: &str) -> (r: Result<Operator, String>)
    ensures
        match r {
            Ok(op) => op.name_spec() == name@,
            Err(m) => (forall|op: Operator| op.name_spec() != name@) && m@ == unknown_provider_text(name@),
        },
{
    match Operator::from_name(name) {
        Some(op) => Ok(op),
        None => {
            let mut m = "provider inconnu : '".to_string();
            m.append(name);
            m.append("' — disponibles : wave, orange, mtn, moov");
            Err(m)
        },
    }
}

/// The settings a provider needs, for the hint shown when it cannot start.
pub fn setup_hint(op: Operator) -> (s: &'static str)
    ensures
        s@ == match op {
            Operator::Wave => "WAVE_API_KEY et WAVE_MERCHANT_ID"@,
            Operator::Orange => "ORANGE_CLIENT_ID et ORANGE_CLIENT_SECRET"@,
            Operator::Mtn => "MTN_SUBSCRIPTION_KEY, MTN_API_USER et MTN_API_KEY"@,
            Operator::Moov => "MOOV_API_KEY"@,
        },
{
    match op {
        Operator::Wave => "WAVE_API_KEY et WAVE_MERCHANT_ID",
        Operator::Orange => "ORANGE_CLIENT_ID et ORANGE_CLIENT_SECRET",
        Operator::Mtn => "MTN_SUBSCRIPTION_KEY, MTN_API_USER et MTN_API_KEY",
        Operator::Moov => "MOOV_API_KEY",
    }
}

/// The message for a number the tool refuses.
pub open spec fn bad_phone_text(input: Seq<char>) -> Seq<char> {
    "numéro de téléphone invalide : '"@ + input + "' — format attendu E.164, ex. +2250700000000"@
}

/// Parses a number given on the command line.
pub fn parse_phone(input: &str) -> (r: Result<PhoneNumber, String>)
    ensures
        match r {
            Ok(p) => accepts_number(None, input@) && p@ == crate::phone::number_e164(None, input@),
            Err(m) => !accepts_number(None, input@) && m@ == bad_phone_text(input@),
        },
{
    match PhoneNumber::parse(input) {
        Ok(p) => Ok(p),
        Err(_) => {
            let mut m = "numéro de téléphone invalide : '".to_string();
            m.append(input);
            m.append("' — format attendu E.164, ex. +2250700000000");
            Err(m)
        },
    }
}

/// Digits grouped by three from the right, groups separated by a space.
pub open spec fn group_thousands(d: Seq<char>) -> Seq<char>
    decreases d.len(),
{
    if d.len() <= 3 {
        d
    } else {
        group_thousands(d.subrange(0, d.len() - 3)) + seq![' '] + d.subrange(d.len() - 3, d.len() as int)
    }
}

/// How the tool shows an amount: `5000` becomes `5 000 XOF`.
pub open spec fn money_label(m: Money) -> Seq<char> {
    group_thousands(decimal(m.amount as nat)) + seq![' '] + m.currency.code_spec()
}

/// `s` with its spaces taken out.
pub open spec fn without_spaces(s: Seq<char>) -> Seq<char>
    decreases s.len(),
{
    if s.len() == 0 {
        s
    } else if s.last() == ' ' {
        without_spaces(s.drop_last())
    } else {
        without_spaces(s.drop_last()).push(s.last())
    }
}

proof fn lemma_without_spaces_concat(a: Seq<char>, b: Seq<char>)
    ensures
        without_spaces(a + b) == without_spaces(a) + without_spaces(b),
    decreases b.len(),
{
    if b.len() == 0 {
        assert(a + b =~= a);
        assert(without_spaces(a) + without_spaces(b) =~= without_spaces(a));
    } else {
        lemma_without_spaces_concat(a, b.drop_last());
        assert((a + b).drop_last() =~= a + b.drop_last());
        assert((a + b).last() == b.last());
        if b.last() == ' ' {
        } else {
            assert(without_spaces(a) + without_spaces(b.drop_last()).push(b.last()) =~= (without_spaces(a)
                + without_spaces(b.drop_last())).push(b.last()));
        }
    }
}

proof fn lemma_without_spaces_of_digits(d: Seq<char>)
    requires
        crate::text::all_digits(d),
    ensures
        without_spaces(d) == d,
    decreases d.len(),
{
    if d.len() > 0 {
        let t = d.drop_last();
        assert(crate::text::all_digits(t)) by {
            assert forall|i: int| 0 <= i < t.len() implies crate::text::is_digit(#[trigger] t[i]) by {
                assert(t[i] == d[i]);
            }
        }
        lemma_without_spaces_of_digits(t);
        assert(crate::text::is_digit(d[d.len() - 1]));
        assert(t.push(d.last()) =~= d);
    }
}

/// Lemma: grouping only inserts spaces: taking the spaces out of the
/// grouped digits gives the digits back.
pub proof fn lemma_grouping_keeps_digits(d: Seq<char>)
    requires
        crate::text::all_digits(d),
    ensures
        without_spaces(group_thousands(d)) == d,
    decreases d.len(),
{
    if d.len() <= 3 {
        lemma_without_spaces_of_digits(d);
    } else {
        let head = d.subrange(0, d.len() - 3);
        let tail = d.subrange(d.len() - 3, d.len() as int);
        assert(crate::text::all_digits(head)) by {
            assert forall|i: int| 0 <= i < head.len() implies crate::text::is_digit(#[trigger] head[i]) by {
                assert(head[i] == d[i]);
            }
        }
        assert(crate::text::all_digits(tail)) by {
            assert forall|i: int| 0 <= i < tail.len() implies crate::text::is_digit(#[trigger] tail[i]) by {
                assert(tail[i] == d[i + d.len() - 3]);
            }
        }
        lemma_grouping_keeps_digits(head);
        lemma_without_spaces_of_digits(tail);
        lemma_without_spaces_concat(group_thousands(head) + seq![' '], tail);
        lemma_without_spaces_concat(group_thousands(head), seq![' ']);
        assert(without_spaces(seq![' ']) =~= Seq::<char>::empty()) by {
            let sp = seq![' '];
            assert(sp.len() == 1);
            assert(sp.last() == ' ');
            assert(sp.drop_last() =~= Seq::<char>::empty());
            assert(without_spaces(sp) == without_spaces(sp.drop_last()));
            assert(without_spaces(Seq::<char>::empty()) =~= Seq::<char>::empty());
        }
        assert(head + tail =~= d);
    }
}

/// Lemma: the amount shown by the tool is the amount's own digits, only
/// spaced out.
pub proof fn lemma_money_label_keeps_digits(m: Money)
    ensures
        without_spaces(group_thousands(decimal(m.amount as nat))) == decimal(m.amount as nat),
{
    crate::text::lemma_decimal_shape(m.amount as nat);
    lemma_grouping_keeps_digits(decimal(m.amount as nat));
}

fn push_grouped(out: &mut String, d: &Vec<char>, n: usize)
    requires
        n <= d@.len(),
    ensures
        final(out)@ == old(out)@ + group_thousands(d@.take(n as int)),
    decreases n,
{
    let ghost p = d@.take(n as int);
    if n <= 3 {
        let mut i: usize = 0;
        let ghost start = out@;
        while i < n
            invariant
                i <= n <= d@.len(),
                out@ == start + d@.take(i as int),
            decreases n - i,
        {
            push_char(out, d[i]);
            assert(d@.take(i + 1) =~= d@.take(i as int).push(d@[i as int]));
            i = i + 1;
        }
        assert(group_thousands(p) == p);
    } else {
        push_grouped(out, d, n - 3);
        let ghost mid = out@;
        push_char(out, ' ');
        push_char(out, d[n - 3]);
        push_char(out, d[n - 2]);
        push_char(out, d[n - 1]);
        assert(p.subrange(0, p.len() - 3) =~= d@.take(n - 3));
        assert(p.subrange(p.len() - 3, p.len() as int) =~= seq![d@[n - 3], d@[n - 2], d@[n - 1]]);
        assert(out@ =~= old(out)@ + group_thousands(p));
    }
}

/// `5000` → `5 000 XOF`: a thousands separator for readability.
pub fn format_money(money: &Money) -> (s: String)
    ensures
        s@ == money_label(*money),
{
    let digits = u64_to_decimal(money.amount);
    let d = crate::text::chars_of(digits.as_str());
    let mut s = String::new();
    push_grouped(&mut s, &d, d.len());
    assert(d@.take(d@.len() as int) =~= d@);
    push_char(&mut s, ' ');
    s.append(money.currency.code());
    assert(s@ =~= money_label(*money));
    s
}

/// The label of a status in the tool's tables.
pub open spec fn status_text(status: TransactionStatus) -> Seq<char> {
    match status {
        TransactionStatus::Pending => "en attente"@,
        TransactionStatus::Successful => "réussie"@,
        TransactionStatus::Failed => "échouée"@,
        TransactionStatus::Cancelled => "annulée"@,
        TransactionStatus::Expired => "expirée"@,
    }
}

/// Law: the tool shows each status under a label of its own: `en attente`,
/// `réussie`, `échouée`, `annulée`, `expirée`; distinct statuses never share
/// a label, so a successful payment is never shown as failed.
pub proof fn lemma_status_labels(a: TransactionStatus, b: TransactionStatus)
    ensures
        status_text(TransactionStatus::Pending) == "en attente"@,
        status_text(TransactionStatus::Successful) == "réussie"@,
        status_text(TransactionStatus::Failed) == "échouée"@,
        status_text(TransactionStatus::Cancelled) == "annulée"@,
        status_text(TransactionStatus::Expired) == "expirée"@,
        status_text(a) == status_text(b) ==> a == b,
{
    reveal_strlit("en attente");
    reveal_strlit("réussie");
    reveal_strlit("échouée");
    reveal_strlit("annulée");
    reveal_strlit("expirée");
    if status_text(a) == status_text(b) && a != b {
        let (x, y) = (status_text(a), status_text(b));
        assert(x.len() == y.len());
        assert(x[0] == y[0]);
        assert(x[1] == y[1]);
    }
}

pub fn status_label(status: TransactionStatus) -> (s: &'static str)
    ensures
        s@ == status_text(status),
{
    match status {
        TransactionStatus::Pending => "en attente",
        TransactionStatus::Successful => "réussie",
        TransactionStatus::Failed => "échouée",
        TransactionStatus::Cancelled => "annulée",
        TransactionStatus::Expired => "expirée",
    }
}

/// What the tool prints after a payment: how to follow a pending payment,
/// nothing for a payment already settled.
pub open spec fn follow_up_text(provider: Seq<char>, id: Seq<char>) -> Seq<char> {
    "Paiement en attente de confirmation — suivre avec : wave status --provider "@ + provider
        + " --id "@ + id
}

pub fn follow_up_hint(response: &PaymentResponse) -> (r: Option<String>)
    ensures
        match r {
            Some(m) => response.status == TransactionStatus::Pending && m@ == follow_up_text(
                response.provider@,
                response.transaction_id@,
            ),
            None => response.status != TransactionStatus::Pending,
        },
{
    match response.status {
        TransactionStatus::Pending => {
            let mut m = "Paiement en attente de confirmation — suivre avec : wave status --provider ".to_string();
            m.append(response.provider.as_str());
            m.append(" --id ");
            m.append(response.transaction_id.as_str());
            Some(m)
        },
        _ => None,
    }
}

/// Placeholder shown for a missing value.
pub open spec fn dash_text() -> Seq<char> {
    "—"@
}

/// The cells of a transaction's row: id, status, amount, counterparty,
/// note and date, `—` standing for what is missing.
pub fn transaction_cells(tx: &Transaction) -> (v: Vec<String>)
    ensures
        v@.len() == 6,
        v@[0]@ == tx.id@,
        v@[1]@ == status_text(tx.status),
        v@[2]@ == money_label(tx.amount),
        v@[3]@ == match tx.counterparty {
            Some(p) => p@,
            None => dash_text(),
        },
        v@[4]@ == match tx.note {
            Some(n) => n@,
            None => dash_text(),
        },
        v@[5]@ == tx.created_at@,
{
    let mut v: Vec<String> = Vec::new();
    v.push(tx.id.as_str().to_string());
    v.push(status_label(tx.status).to_string());
    v.push(format_money(&tx.amount));
    v.push(match &tx.counterparty {
        Some(p) => p.as_str().to_string(),
        None => "—".to_string(),
    });
    v.push(match &tx.note {
        Some(n) => n.clone(),
        None => "—".to_string(),
    });
    v.push(tx.created_at.clone());
    v
}

} // verus!
