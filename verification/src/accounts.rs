//! Accounts: the register (which disclosed accounts the search and filters
//! keep, in name order), and the readings of one account's detail.

use vstd::prelude::*;
use crate::access::{Disclosure, derived_shown};
use crate::order::{sort_increasing_by_name, sorted_by_name, stable_by_name};
use crate::text::{
    DatePattern, calendar_text, decimal, texts, chars_of, contains_seq, contains_text, date_text, joined, lowercase,
    lowercased, percent, percent_text, push_str, trim, trimmed, valid_day,
};
use crate::timeline::Entity;

verus! {

/// One owner's share of an account, in basis points.
#[derive(Clone, Copy, Debug)]
pub struct Share {
    pub person: u64,
    pub basis_points: u32,
}

/// Who holds an account: a company, or people in shares.
#[derive(Clone, Debug)]
pub enum Holder {
    Company(u64),
    Persons(Vec<Share>),
}

/// An account the viewer may see, with the disclosure they have of it.
#[derive(Clone, Debug)]
pub struct AccountInput {
    pub id: u64,
    pub name: String,
    pub institution: String,
    pub holder: Holder,
    /// The account's kind, by its code.
    pub kind: u8,
    pub disclosure: Disclosure,
}

/// The register's search and filters.
#[derive(Clone, Debug)]
pub struct AccountFilter {
    /// The search text as typed.
    pub search: String,
    /// The holder chosen; none for every holder.
    pub holder: Option<Entity>,
    /// The kind chosen; none for every kind.
    pub kind: Option<u8>,
}

/// The search as the register reads it: trimmed, then lowercased.
pub open spec fn query_of(f: AccountFilter) -> Seq<char> {
    lowercased(trimmed(f.search@))
}

/// Whether an account matches the search: no search, or the search stands in
/// its lowercased name or institution.
pub open spec fn matches_query(a: AccountInput, query: Seq<char>) -> bool {
    query.len() == 0 || contains_seq(lowercased(a.name@), query) || contains_seq(lowercased(a.institution@), query)
}

/// Whether a person holds a share of an account.
pub open spec fn person_holds(h: Holder, p: u64) -> bool {
    match h {
        Holder::Company(_) => false,
        Holder::Persons(shares) => exists|i: int| 0 <= i < shares@.len() && shares@[i].person == p && shares@[i].basis_points > 0,
    }
}

/// Whether an account passes the holder filter: a company filter keeps that
/// company's accounts, a person filter the accounts they hold a share of.
pub open spec fn holder_ok(a: AccountInput, holder: Option<Entity>) -> bool {
    match holder {
        None => true,
        Some(Entity::Company(c)) => a.holder matches Holder::Company(id) && id == c,
        Some(Entity::Person(p)) => person_holds(a.holder, p),
        Some(Entity::Household) => true,
    }
}

pub open spec fn account_kept(a: AccountInput, f: AccountFilter) -> bool {
    matches_query(a, query_of(f)) && holder_ok(a, f.holder) && (f.kind matches Some(k) ==> a.kind == k)
}

/// The positions of the first `k` accounts the register keeps, in the
/// order they came in.
pub open spec fn kept_accounts(accs: Seq<AccountInput>, f: AccountFilter, k: nat) -> Seq<usize>
    decreases k,
{
    if k == 0 || k > accs.len() {
        Seq::empty()
    } else {
        let prev = kept_accounts(accs, f, (k - 1) as nat);
        if account_kept(accs[k - 1], f) { prev.push((k - 1) as usize) } else { prev }
    }
}

/// The kept positions among the first `k` are below `k` and each account
/// there is kept; every account below `k` that is kept is among them.
proof fn kept_accounts_members(accs: Seq<AccountInput>, f: AccountFilter, k: nat)
    requires
        k <= accs.len(),
        accs.len() <= usize::MAX,
    ensures
        forall|i: int| 0 <= i < kept_accounts(accs, f, k).len() ==> {
            let x = #[trigger] kept_accounts(accs, f, k)[i];
            x < k && account_kept(accs[x as int], f)
        },
        forall|j: int| 0 <= j < k && account_kept(#[trigger] accs[j], f) ==> kept_accounts(accs, f, k).contains(j as usize),
    decreases k,
{
    if k > 0 {
        kept_accounts_members(accs, f, (k - 1) as nat);
        let prev = kept_accounts(accs, f, (k - 1) as nat);
        let cur = kept_accounts(accs, f, k);
        assert forall|j: int| 0 <= j < k && account_kept(#[trigger] accs[j], f) implies cur.contains(j as usize) by {
            if j < k - 1 {
                let m = choose|m: int| 0 <= m < prev.len() && prev[m] == j as usize;
                assert(cur[m] == j as usize);
            } else {
                assert(cur[cur.len() - 1] == j as usize);
            }
        }
    }
}

/// The search keeps an account exactly when the search, trimmed and
/// lowercased, is empty or stands somewhere (at any position, not only at
/// the start) in the account's lowercased name or lowercased institution;
/// with the holder filter passed (a company's own accounts, or the accounts
/// a person holds a share of) and the kind filter, such an account is a row,
/// and every row is such an account.
pub proof fn search_finds_text_anywhere(accs: Seq<AccountInput>, f: AccountFilter)
    requires
        accs.len() <= usize::MAX,
    ensures
        forall|j: int| 0 <= j < accs.len() ==> (kept_accounts(accs, f, accs.len()).contains(j as usize) <==> {
            let q = lowercased(trimmed(f.search@));
            let name = lowercased((#[trigger] accs[j]).name@);
            let institution = lowercased(accs[j].institution@);
            &&& q.len() == 0
                || (exists|p: int| 0 <= p && p + q.len() <= name.len() && #[trigger] name.subrange(p, p + q.len()) == q)
                || (exists|p: int| 0 <= p && p + q.len() <= institution.len() && #[trigger] institution.subrange(p, p + q.len()) == q)
            &&& match f.holder {
                Some(Entity::Company(c)) => accs[j].holder matches Holder::Company(id) && id == c,
                Some(Entity::Person(p)) => accs[j].holder matches Holder::Persons(shares)
                    && exists|i: int| 0 <= i < shares@.len() && #[trigger] shares@[i].person == p && shares@[i].basis_points > 0,
                _ => true,
            }
            &&& f.kind matches Some(k) ==> accs[j].kind == k
        }),
{
    kept_accounts_members(accs, f, accs.len());
    let kept = kept_accounts(accs, f, accs.len());
    assert forall|j: int| 0 <= j < accs.len() implies (kept.contains(j as usize) <==> {
            let q = lowercased(trimmed(f.search@));
            let name = lowercased((#[trigger] accs[j]).name@);
            let institution = lowercased(accs[j].institution@);
            &&& q.len() == 0
                || (exists|p: int| 0 <= p && p + q.len() <= name.len() && #[trigger] name.subrange(p, p + q.len()) == q)
                || (exists|p: int| 0 <= p && p + q.len() <= institution.len() && #[trigger] institution.subrange(p, p + q.len()) == q)
            &&& match f.holder {
                Some(Entity::Company(c)) => accs[j].holder matches Holder::Company(id) && id == c,
                Some(Entity::Person(p)) => accs[j].holder matches Holder::Persons(shares)
                    && exists|i: int| 0 <= i < shares@.len() && #[trigger] shares@[i].person == p && shares@[i].basis_points > 0,
                _ => true,
            }
            &&& f.kind matches Some(k) ==> accs[j].kind == k
        }) by {
        let q = lowercased(trimmed(f.search@));
        let name = lowercased(accs[j].name@);
        let institution = lowercased(accs[j].institution@);
        if kept.contains(j as usize) {
            let m = choose|m: int| 0 <= m < kept.len() && kept[m] == j as usize;
            assert(kept[m] == j as usize);
            assert(account_kept(accs[j], f));
            if q.len() != 0 {
                if contains_seq(name, q) {
                    let p = choose|p: int| crate::text::occurs_at(name, q, p);
                    assert(name.subrange(p, p + q.len()) == q);
                } else {
                    assert(contains_seq(institution, q));
                    let p = choose|p: int| crate::text::occurs_at(institution, q, p);
                    assert(institution.subrange(p, p + q.len()) == q);
                }
            }
        } else {
            assert(!account_kept(accs[j], f));
            if q.len() != 0 && !matches_query(accs[j], q) {
                assert forall|p: int| 0 <= p && p + q.len() <= name.len() implies #[trigger] name.subrange(p, p + q.len()) != q by {
                    if name.subrange(p, p + q.len()) == q {
                        assert(crate::text::occurs_at(name, q, p));
                    }
                }
                assert forall|p: int| 0 <= p && p + q.len() <= institution.len() implies #[trigger] institution.subrange(p, p + q.len()) != q by {
                    if institution.subrange(p, p + q.len()) == q {
                        assert(crate::text::occurs_at(institution, q, p));
                    }
                }
            }
        }
    }
}

/// The names of the accounts.
pub open spec fn account_names(accs: Seq<AccountInput>) -> Seq<Seq<char>> {
    accs.map_values(|a: AccountInput| a.name@)
}

fn holds_share(shares: &Vec<Share>, p: u64) -> (r: bool)
    ensures
        r == exists|i: int| 0 <= i < shares@.len() && shares@[i].person == p && shares@[i].basis_points > 0,
{
    let n = shares.len();
    for i in 0..n
        invariant
            n == shares@.len(),
            forall|j: int| 0 <= j < i ==> !(shares@[j].person == p && shares@[j].basis_points > 0),
    {
        if shares[i].person == p && shares[i].basis_points > 0 {
            return true;
        }
    }
    false
}

fn holder_passes(a: &AccountInput, holder: Option<Entity>) -> (r: bool)
    ensures
        r == holder_ok(*a, holder),
{
    match holder {
        None => true,
        Some(Entity::Company(c)) => match &a.holder {
            Holder::Company(id) => *id == c,
            Holder::Persons(_) => false,
        },
        Some(Entity::Person(p)) => match &a.holder {
            Holder::Company(_) => false,
            Holder::Persons(shares) => holds_share(shares, p),
        },
        Some(Entity::Household) => true,
    }
}

fn query_passes(a: &AccountInput, query: &str) -> (r: bool)
    ensures
        r == matches_query(*a, query@),
{
    if query.unicode_len() == 0 {
        return true;
    }
    let name = lowercase(a.name.as_str());
    if contains_text(name.as_str(), query) {
        return true;
    }
    let institution = lowercase(a.institution.as_str());
    contains_text(institution.as_str(), query)
}

/// What the register shows.
#[derive(Clone, Debug)]
pub struct AccountRegister {
    /// Positions of the rows, in name order.
    pub rows: Vec<usize>,
    /// Whether any filter or search is set.
    pub filtering: bool,
}

impl AccountRegister {
    /// The register over the accounts the viewer may see.
    pub fn compute(accounts: &Vec<AccountInput>, filter: &AccountFilter) -> (r: AccountRegister)
        ensures
            r.rows@.to_multiset() == kept_accounts(accounts@, *filter, accounts@.len()).to_multiset(),
            r.rows@.len() == kept_accounts(accounts@, *filter, accounts@.len()).len(),
            sorted_by_name(account_names(accounts@), r.rows@),
            stable_by_name(account_names(accounts@), r.rows@),
            r.filtering == (query_of(*filter).len() > 0 || filter.holder is Some || filter.kind is Some),
    {
        let trimmed_search = trim(filter.search.as_str());
        let query = lowercase(trimmed_search.as_str());
        let n = accounts.len();
        let mut kept: Vec<usize> = Vec::new();
        for i in 0..n
            invariant
                n == accounts@.len(),
                query@ == query_of(*filter),
                kept@ == kept_accounts(accounts@, *filter, i as nat),
                forall|j: int| 0 <= j < kept@.len() ==> kept@[j] < i,
                forall|j: int, l: int| 0 <= j < l < kept@.len() ==> kept@[j] < kept@[l],
        {
            let a = &accounts[i];
            let kind_ok = match filter.kind {
                Some(k) => a.kind == k,
                None => true,
            };
            if query_passes(a, query.as_str()) && holder_passes(a, filter.holder) && kind_ok {
                kept.push(i);
            }
        }
        let mut names: Vec<Vec<char>> = Vec::new();
        for i in 0..n
            invariant
                n == accounts@.len(),
                names@.len() == i,
                forall|j: int| 0 <= j < i ==> (#[trigger] names@[j])@ == accounts@[j].name@,
        {
            names.push(chars_of(accounts[i].name.as_str()));
        }
        proof {
            assert(names@.map_values(|v: Vec<char>| v@) =~= account_names(accounts@));
        }
        let rows = sort_increasing_by_name(&names, &kept);
        let filtering = query.unicode_len() > 0 || filter.holder.is_some() || filter.kind.is_some();
        AccountRegister { rows, filtering }
    }
}

/// Whether earmarks can be added to an account: a personal account the
/// viewer sees in full.
pub open spec fn earmarkable(is_company_account: bool, d: Disclosure) -> bool {
    !is_company_account && d == Disclosure::Full
}

pub fn can_earmark(is_company_account: bool, d: Disclosure) -> (r: bool)
    ensures
        r == earmarkable(is_company_account, d),
{
    !is_company_account && d == Disclosure::Full
}

/// Whether an account lies on a forecast path: a personal cash account,
/// included in household figures and immediately liquid.
pub open spec fn on_forecast_path(is_cash: bool, included: bool, immediate: bool, is_company_account: bool) -> bool {
    is_cash && included && immediate && !is_company_account
}

pub fn forecast_possible(is_cash: bool, included: bool, immediate: bool, is_company_account: bool) -> (r: bool)
    ensures
        r == on_forecast_path(is_cash, included, immediate, is_company_account),
{
    is_cash && included && immediate && !is_company_account
}

/// `Yes` or `No`.
pub open spec fn yes_no(value: bool) -> Seq<char> {
    if value { "Yes"@ } else { "No"@ }
}

pub fn yes_no_text(value: bool) -> (r: String)
    ensures
        r@ == yes_no(value),
{
    if value { String::from_str("Yes") } else { String::from_str("No") }
}

/// An account fee: a fixed amount (as the money type writes it), a rate in
/// basis points, or both.
#[derive(Clone, Debug)]
pub struct Fee {
    pub description: String,
    pub fixed: Option<String>,
    pub basis_points: u32,
}

/// The parts of a fee: the fixed amount, then the rate when it is not zero.
pub open spec fn fee_parts(f: Fee) -> Seq<Seq<char>> {
    let fixed = match f.fixed { Some(t) => seq![t@], None => Seq::empty() };
    if f.basis_points > 0 { fixed.push(percent(f.basis_points as nat)) } else { fixed }
}

/// One fee: `Transfer fee (500 + 0.25%)`.
pub open spec fn fee_line(f: Fee) -> Seq<char> {
    f.description@ + " ("@ + joined(fee_parts(f), " + "@) + ")"@
}

/// The fees of an account: `None`, or each fee joined by ` · `.
pub open spec fn fees_line(fees: Seq<Fee>) -> Seq<char> {
    if fees.len() == 0 { "None"@ } else { joined(fees.map_values(|f: Fee| fee_line(f)), " · "@) }
}

fn fee_line_text(f: &Fee) -> (r: String)
    ensures
        r@ == fee_line(*f),
{
    let mut parts: Vec<String> = Vec::new();
    match &f.fixed {
        Some(t) => parts.push(t.clone()),
        None => {},
    }
    if f.basis_points > 0 {
        parts.push(percent_text(f.basis_points));
    }
    proof {
        assert(crate::text::texts(parts@) =~= fee_parts(*f));
    }
    let joined_parts = crate::text::join_texts(&parts, " + ");
    let mut s = f.description.clone();
    push_str(&mut s, " (");
    push_str(&mut s, joined_parts.as_str());
    push_str(&mut s, ")");
    s
}

pub fn fees_text(fees: &Vec<Fee>) -> (r: String)
    ensures
        r@ == fees_line(fees@),
{
    if fees.len() == 0 {
        return String::from_str("None");
    }
    let mut lines: Vec<String> = Vec::new();
    let n = fees.len();
    for i in 0..n
        invariant
            n == fees@.len(),
            lines@.len() == i,
            forall|j: int| 0 <= j < i ==> (#[trigger] lines@[j])@ == fee_line(fees@[j]),
    {
        lines.push(fee_line_text(&fees[i]));
    }
    proof {
        assert(crate::text::texts(lines@) =~= fees@.map_values(|f: Fee| fee_line(f)));
    }
    crate::text::join_texts(&lines, " · ")
}

/// The kind-and-holder line of a register row: business cash for a
/// company's account, the holders otherwise.
pub open spec fn holder_line(kind: Seq<char>, is_company_account: bool, holders: Seq<char>) -> Seq<char> {
    if is_company_account { kind + " · Business cash"@ } else { kind + " · "@ + holders }
}

pub fn holder_line_text(kind: &str, is_company_account: bool, holders: &str) -> (r: String)
    ensures
        r@ == holder_line(kind@, is_company_account, holders@),
{
    let mut s = String::from_str(kind);
    if is_company_account {
        push_str(&mut s, " · Business cash");
    } else {
        push_str(&mut s, " · ");
        push_str(&mut s, holders);
    }
    s
}

/// When an account was last reconciled.
pub open spec fn reconciled_line(last: Option<i32>) -> Seq<char> {
    match last {
        Some(d) => "Reconciled "@ + calendar_text(d, DatePattern::DayMonthYear),
        None => "Never reconciled"@,
    }
}

pub fn reconciled_text(last: Option<i32>) -> (r: String)
    requires
        last matches Some(d) ==> valid_day(d as int),
    ensures
        r@ == reconciled_line(last),
{
    match last {
        Some(d) => {
            let mut s = String::from_str("Reconciled ");
            let t = date_text(d, DatePattern::DayMonthYear);
            push_str(&mut s, t.as_str());
            s
        },
        None => String::from_str("Never reconciled"),
    }
}

/// Whether the reserved and free readings of an account are shown: under
/// full or selected-fields disclosure; under balance-only they say `Not
/// disclosed` instead, never zero.
pub fn reserved_and_free_shown(d: Disclosure) -> (r: bool)
    ensures
        r == derived_shown(d),
{
    crate::access::shows_derived(d)
}

/// The constraint facts of an account that its settings decide: its bank
/// minimum, its transfer delay, the categories it may fund and its tax
/// treatment.
pub open spec fn constraint_facts(minimum: Option<Seq<char>>, delay_days: nat, funds: Seq<String>, tax_treatment: Seq<char>) -> Seq<Seq<char>> {
    seq![
        match minimum { Some(m) => m, None => "None"@ },
        decimal(delay_days) + " day(s)"@,
        if funds.len() == 0 { "Any expense category"@ } else { joined(texts(funds), ", "@) },
        if tax_treatment.len() == 0 { "—"@ } else { tax_treatment },
    ]
}

/// `minimum` is the bank minimum as the money type writes it.
pub fn constraint_facts_text(minimum: Option<&str>, delay_days: u32, funds: &Vec<String>, tax_treatment: &str) -> (r: Vec<String>)
    ensures
        texts(r@) == constraint_facts(match minimum { Some(m) => Some(m@), None => None }, delay_days as nat, funds@, tax_treatment@),
{
    let mut out: Vec<String> = Vec::new();
    match minimum {
        Some(m) => out.push(String::from_str(m)),
        None => out.push(String::from_str("None")),
    }
    let mut delay = String::new();
    crate::text::push_decimal(&mut delay, delay_days as u64);
    push_str(&mut delay, " day(s)");
    out.push(delay);
    if funds.len() == 0 {
        out.push(String::from_str("Any expense category"));
    } else {
        out.push(crate::text::join_texts(funds, ", "));
    }
    if tax_treatment.unicode_len() == 0 {
        out.push(String::from_str("—"));
    } else {
        out.push(String::from_str(tax_treatment));
    }
    proof {
        let m = match minimum { Some(m) => Some(m@), None => None };
        assert(texts(out@) =~= constraint_facts(m, delay_days as nat, funds@, tax_treatment@));
    }
    out
}

/// The commands at the foot of an account's overview that lead elsewhere:
/// whether each is enabled and what its tooltip says.
#[derive(Clone, Debug)]
pub struct AccountCommands {
    pub forecast: bool,
    pub forecast_tip: String,
    pub sensitivity: bool,
    pub sensitivity_tip: String,
}

/// `View forecast` opens for an account on a forecast path and for a
/// company's account (the company's path); `Sensitivity` for an account on a
/// forecast path that is among the boundaries sensitivity is run for.
pub open spec fn account_commands_of(on_path: bool, company: bool, sensitivity_boundary: bool) -> (bool, Seq<char>, bool, Seq<char>) {
    let forecast = on_path || company;
    let sensitivity = on_path && sensitivity_boundary;
    (
        forecast,
        if forecast {
            "The forecast path with this account selected"@
        } else {
            "This account is not on a forecast path: it is excluded, not immediately liquid, or not a cash account"@
        },
        sensitivity,
        if sensitivity {
            "One-at-a-time limits for this account's path"@
        } else {
            "Sensitivity is available for the household and personal cash accounts"@
        },
    )
}

pub fn account_commands(on_path: bool, company: Option<u64>, sensitivity_boundary: bool) -> (r: AccountCommands)
    ensures
        ({
            let (f, ft, s, st) = account_commands_of(on_path, company is Some, sensitivity_boundary);
            &&& r.forecast == f
            &&& r.forecast_tip@ == ft
            &&& r.sensitivity == s
            &&& r.sensitivity_tip@ == st
        }),
{
    let forecast = on_path || company.is_some();
    let sensitivity = on_path && sensitivity_boundary;
    let forecast_tip = if forecast {
        String::from_str("The forecast path with this account selected")
    } else {
        String::from_str("This account is not on a forecast path: it is excluded, not immediately liquid, or not a cash account")
    };
    let sensitivity_tip = if sensitivity {
        String::from_str("One-at-a-time limits for this account's path")
    } else {
        String::from_str("Sensitivity is available for the household and personal cash accounts")
    };
    AccountCommands { forecast, forecast_tip, sensitivity, sensitivity_tip }
}

/// Where an account's balances come from: entered by hand, or a recorded
/// history by its label (which is not an import or a connection).
pub open spec fn balance_source(manual: bool, label: Seq<char>) -> Seq<char> {
    if manual { "Manual entry"@ } else { label + " (recorded history; not an import or connection)"@ }
}

pub fn balance_source_text(manual: bool, label: &str) -> (r: String)
    ensures
        r@ == balance_source(manual, label@),
{
    if manual {
        String::from_str("Manual entry")
    } else {
        let mut s = String::new();
        push_str(&mut s, label);
        push_str(&mut s, " (recorded history; not an import or connection)");
        proof { assert(s@ =~= balance_source(manual, label@)); }
        s
    }
}

/// An account's policy as its sharing facts state it: its preset, version
/// and effective date; without one the account is left out until an owner
/// sets one.
pub open spec fn policy_fact(policy: Option<(Seq<char>, nat, i32)>) -> Seq<char> {
    match policy {
        Some((preset, version, effective)) => preset + " (version "@ + decimal(version) + ", effective "@
            + calendar_text(effective, DatePattern::DayMonthYear) + ")"@,
        None => "None — excluded until an owner sets one"@,
    }
}

pub fn policy_fact_text(policy: Option<(&str, u64, i32)>) -> (r: String)
    requires
        policy matches Some(p) ==> valid_day(p.2 as int),
    ensures
        r@ == policy_fact(match policy { Some((p, v, e)) => Some((p@, v as nat, e)), None => None }),
{
    match policy {
        Some((preset, version, effective)) => {
            let mut s = String::new();
            push_str(&mut s, preset);
            push_str(&mut s, " (version ");
            crate::text::push_decimal(&mut s, version);
            push_str(&mut s, ", effective ");
            let d = date_text(effective, DatePattern::DayMonthYear);
            push_str(&mut s, d.as_str());
            push_str(&mut s, ")");
            proof { assert(s@ =~= policy_fact(Some((preset@, version as nat, effective)))); }
            s
        },
        None => String::from_str("None — excluded until an owner sets one"),
    }
}

} // verus!
