//! Today: the setup checklist and its markers, the membership line, what the
//! spendable figure says under it, and the page's dated lines.

use vstd::prelude::*;
use crate::access::Disclosure;
use crate::text::{DatePattern, calendar_text, counted, counted_text, date_text, decimal, push_decimal, push_str, valid_day};

verus! {

/// What the setup checklist knows of the household.
#[derive(Clone, Debug)]
pub struct SetupFacts {
    /// The first person's name, when there is one.
    pub first_person: Option<String>,
    /// The first personal cash account, included in household figures and
    /// disclosed to the viewer in full.
    pub usable_account: Option<String>,
    /// Whether personal accounts exist though none is usable by this viewer.
    pub restricted_accounts_exist: bool,
    /// How many baseline series are planned.
    pub planned_series: u64,
    /// The file the household is saved to, when it is saved and clean.
    pub saved_to: Option<String>,
}

/// An account as the checklist reads it.
#[derive(Clone, Debug)]
pub struct SetupAccount {
    pub name: String,
    pub is_company_account: bool,
    pub is_cash: bool,
    /// Whether it counts in household figures.
    pub included: bool,
    pub disclosure: Disclosure,
}

/// Whether an account makes the household usable: a personal cash account,
/// counted in household figures, that the viewer sees in full.
pub open spec fn usable(a: SetupAccount) -> bool {
    !a.is_company_account && a.is_cash && a.included && a.disclosure == Disclosure::Full
}

/// The first usable account, by position.
pub open spec fn first_usable(accounts: Seq<SetupAccount>) -> Option<int> {
    if exists|i: int| 0 <= i < accounts.len() && usable(accounts[i]) {
        Some(choose|i: int| 0 <= i < accounts.len() && usable(accounts[i]) && forall|j: int| 0 <= j < i ==> !usable(accounts[j]))
    } else {
        None
    }
}

/// How many series belong to the baseline (no scenario).
pub open spec fn baseline_count(scenarios: Seq<Option<u64>>) -> nat
    decreases scenarios.len(),
{
    if scenarios.len() == 0 {
        0
    } else {
        baseline_count(scenarios.drop_last()) + if scenarios.last() is None { 1nat } else { 0nat }
    }
}

fn copied(t: &str) -> (r: String)
    ensures
        r@ == t@,
{
    let mut s = String::new();
    push_str(&mut s, t);
    proof {
        assert(s@ =~= t@);
    }
    s
}

/// What the checklist knows, from the household: the first person's name,
/// the first usable account (and, when there is none, whether personal
/// accounts exist that this viewer cannot use), the baseline series, and
/// the file when the household is saved with nothing unsaved.
pub fn setup_facts(
    first_person: Option<&str>,
    accounts: &Vec<SetupAccount>,
    series_scenarios: &Vec<Option<u64>>,
    file: Option<&str>,
    dirty: bool,
) -> (f: SetupFacts)
    ensures
        f.first_person matches Some(n) ==> first_person matches Some(p) && n@ == p@,
        f.first_person is None <==> first_person is None,
        match first_usable(accounts@) {
            Some(i) => f.usable_account matches Some(n) && n@ == accounts@[i].name@ && !f.restricted_accounts_exist,
            None => f.usable_account is None && f.restricted_accounts_exist == exists|i: int|
                0 <= i < accounts@.len() && !accounts@[i].is_company_account,
        },
        f.planned_series as nat == baseline_count(series_scenarios@),
        f.saved_to is Some <==> (file is Some && !dirty),
        f.saved_to matches Some(t) ==> file matches Some(p) && t@ == p@,
{
    let first = match first_person {
        Some(p) => Some(copied(p)),
        None => None,
    };
    let n = accounts.len();
    let mut usable_account: Option<String> = None;
    let mut personal = false;
    let mut i: usize = 0;
    while i < n
        invariant_except_break
            usable_account is None,
        invariant
            n == accounts@.len(),
            i <= n,
            forall|j: int| 0 <= j < i ==> !usable(accounts@[j]),
            personal == exists|j: int| 0 <= j < i && !accounts@[j].is_company_account,
        ensures
            match usable_account {
                Some(name) => first_usable(accounts@) == Some(i as int) && i < n && name@ == accounts@[i as int].name@,
                None => i == n,
            },
        decreases n - i,
    {
        let a = &accounts[i];
        if !a.is_company_account && a.is_cash && a.included && a.disclosure == Disclosure::Full {
            proof {
                let c = choose|c: int| 0 <= c < accounts@.len() && usable(accounts@[c]) && forall|j: int| 0 <= j < c ==> !usable(accounts@[j]);
                assert(usable(accounts@[i as int]));
                if c < i {
                    assert(!usable(accounts@[c]));
                } else if c > i {
                    assert(!usable(accounts@[i as int]));
                }
                assert(first_usable(accounts@) == Some(i as int));
            }
            usable_account = Some(copied(a.name.as_str()));
            break;
        }
        if !a.is_company_account {
            personal = true;
        }
        i = i + 1;
    }
    let restricted = usable_account.is_none() && personal;
    proof {
        if usable_account is None {
            assert(first_usable(accounts@) is None);
        }
    }
    let mut planned: u64 = 0;
    let m = series_scenarios.len();
    for k in 0..m
        invariant
            m == series_scenarios@.len(),
            planned as nat == baseline_count(series_scenarios@.take(k as int)),
            planned <= k,
    {
        proof {
            assert(series_scenarios@.take(k + 1).drop_last() =~= series_scenarios@.take(k as int));
        }
        if series_scenarios[k].is_none() {
            planned = planned + 1;
        }
    }
    proof {
        assert(series_scenarios@.take(m as int) =~= series_scenarios@);
    }
    let saved_to = match file {
        Some(p) => if dirty { None } else { Some(copied(p)) },
        None => None,
    };
    SetupFacts {
        first_person: first,
        usable_account,
        restricted_accounts_exist: restricted,
        planned_series: planned,
        saved_to,
    }
}

/// The marker of a checklist row.
#[derive(Clone, Copy, PartialEq, Eq, Debug, Structural)]
pub enum Marker {
    Done,
    /// The first row not yet done.
    Next,
    /// A later row not yet done.
    Blank,
}

/// One row of the checklist.
#[derive(Clone, Debug)]
pub struct ChecklistRow {
    pub done: bool,
    pub marker: Marker,
    /// What the row says: what was done, or what to do.
    pub text: String,
}

/// Whether each of the four prerequisites is met.
pub open spec fn done_flags(f: SetupFacts) -> Seq<bool> {
    seq![f.first_person is Some, f.usable_account is Some, f.planned_series > 0, f.saved_to is Some]
}

/// The checklist shows while a person, a usable account or a planned series is missing.
pub open spec fn checklist_shown(f: SetupFacts) -> bool {
    !(f.first_person is Some && f.usable_account is Some && f.planned_series > 0)
}

/// The marker of row `i`: done, or next when every row before it is done.
pub open spec fn marker_of(done: Seq<bool>, i: int) -> Marker {
    if done[i] {
        Marker::Done
    } else if forall|j: int| 0 <= j < i ==> done[j] {
        Marker::Next
    } else {
        Marker::Blank
    }
}

pub open spec fn row_text(f: SetupFacts, i: int) -> Seq<char> {
    if i == 0 {
        match f.first_person { Some(n) => n@, None => "Add a person"@ }
    } else if i == 1 {
        match f.usable_account {
            Some(n) => n@,
            None => if f.restricted_accounts_exist { "No usable account is disclosed to this viewer"@ } else { "Add a personal cash account"@ },
        }
    } else if i == 2 {
        if f.planned_series > 0 { decimal(f.planned_series as nat) + " planned series"@ } else { "Add planned income or spending"@ }
    } else {
        match f.saved_to { Some(p) => p@, None => "Save this household"@ }
    }
}

fn row_text_of(f: &SetupFacts, i: usize) -> (r: String)
    requires
        i < 4,
    ensures
        r@ == row_text(*f, i as int),
{
    if i == 0 {
        match &f.first_person { Some(n) => n.clone(), None => String::from_str("Add a person") }
    } else if i == 1 {
        match &f.usable_account {
            Some(n) => n.clone(),
            None => if f.restricted_accounts_exist { String::from_str("No usable account is disclosed to this viewer") } else { String::from_str("Add a personal cash account") },
        }
    } else if i == 2 {
        if f.planned_series > 0 {
            let mut s = String::new();
            push_decimal(&mut s, f.planned_series);
            push_str(&mut s, " planned series");
            proof { assert(s@ =~= decimal(f.planned_series as nat) + " planned series"@); }
            s
        } else {
            String::from_str("Add planned income or spending")
        }
    } else {
        match &f.saved_to { Some(p) => p.clone(), None => String::from_str("Save this household") }
    }
}

/// The setup checklist: nothing once the household has a person, a usable
/// account and a planned series; otherwise its four rows.
pub fn checklist(f: &SetupFacts) -> (r: Option<Vec<ChecklistRow>>)
    ensures
        r is Some == checklist_shown(*f),
        r matches Some(rows) ==> rows@.len() == 4 && forall|i: int| 0 <= i < 4 ==> {
            &&& (#[trigger] rows@[i]).done == done_flags(*f)[i]
            &&& rows@[i].marker == marker_of(done_flags(*f), i)
            &&& rows@[i].text@ == row_text(*f, i)
        },
{
    let done = [f.first_person.is_some(), f.usable_account.is_some(), f.planned_series > 0, f.saved_to.is_some()];
    if done[0] && done[1] && done[2] {
        return None;
    }
    let ghost flags = done_flags(*f);
    proof { assert(done@ =~= flags); }
    let mut rows: Vec<ChecklistRow> = Vec::new();
    let mut first_unmet = true;
    for i in 0..4
        invariant
            done@ == flags,
            flags == done_flags(*f),
            rows@.len() == i,
            first_unmet == (forall|j: int| 0 <= j < i ==> flags[j]),
            forall|k: int| 0 <= k < i ==> {
                &&& (#[trigger] rows@[k]).done == flags[k]
                &&& rows@[k].marker == marker_of(flags, k)
                &&& rows@[k].text@ == row_text(*f, k)
            },
    {
        let d = done[i];
        let marker = if d {
            Marker::Done
        } else if first_unmet {
            first_unmet = false;
            Marker::Next
        } else {
            Marker::Blank
        };
        let text = row_text_of(f, i);
        rows.push(ChecklistRow { done: d, marker, text });
        proof {
            assert(first_unmet == (forall|j: int| 0 <= j < i + 1 ==> flags[j]));
        }
    }
    Some(rows)
}

/// At most one row of the checklist is marked next, and it is the first
/// row not done.
pub proof fn one_next_marker(done: Seq<bool>, i: int, k: int)
    requires
        0 <= i < k < done.len(),
    ensures
        !(marker_of(done, i) == Marker::Next && marker_of(done, k) == Marker::Next),
{
}

/// What the viewer sees of the household's membership.
#[derive(Clone, Copy, Debug)]
pub struct Membership {
    pub people: u64,
    pub companies: u64,
    pub accounts: u64,
    pub hidden_accounts: u64,
}

/// `2 people · 1 company · 7 accounts visible`, and how many accounts are
/// not disclosed when some are not.
pub open spec fn membership_line(m: Membership) -> Seq<char> {
    counted(m.people as nat, "person"@, "people"@) + " · "@ + counted(m.companies as nat, "company"@, "companies"@) + " · "@
        + counted(m.accounts as nat, "account"@, "accounts"@) + " visible"@
        + if m.hidden_accounts > 0 { " · "@ + decimal(m.hidden_accounts as nat) + " not disclosed"@ } else { Seq::empty() }
}

pub fn membership_summary(m: &Membership) -> (r: String)
    ensures
        r@ == membership_line(*m),
{
    let mut s = counted_text(m.people, "person", "people");
    push_str(&mut s, " · ");
    let c = counted_text(m.companies, "company", "companies");
    push_str(&mut s, c.as_str());
    push_str(&mut s, " · ");
    let a = counted_text(m.accounts, "account", "accounts");
    push_str(&mut s, a.as_str());
    push_str(&mut s, " visible");
    if m.hidden_accounts > 0 {
        push_str(&mut s, " · ");
        push_decimal(&mut s, m.hidden_accounts);
        push_str(&mut s, " not disclosed");
    }
    proof { assert(s@ =~= membership_line(*m)); }
    s
}

/// What is said under `Spendable now`: the deficit when the floor is
/// breached (the figure itself shows zero), otherwise that there is none.
pub open spec fn deficit_line(deficit: Option<Seq<char>>) -> Seq<char> {
    match deficit {
        Some(d) => "Shown as 0: the floor is breached by "@ + d,
        None => "No deficit against the hard floor"@,
    }
}

/// `deficit` is the deficit as the money type writes it, when it is positive.
pub fn deficit_line_text(deficit: Option<&str>) -> (r: String)
    ensures
        r@ == deficit_line(match deficit { Some(d) => Some(d@), None => None }),
{
    match deficit {
        Some(d) => {
            let mut s = String::from_str("Shown as 0: the floor is breached by ");
            push_str(&mut s, d);
            s
        },
        None => String::from_str("No deficit against the hard floor"),
    }
}

/// The line under the page title.
pub open spec fn balances_as_of(as_of: i32) -> Seq<char> {
    "Household · Balances as of "@ + calendar_text(as_of, DatePattern::DayMonthYear)
}

pub fn balances_as_of_text(as_of: i32) -> (r: String)
    requires
        valid_day(as_of as int),
    ensures
        r@ == balances_as_of(as_of),
{
    let mut s = String::new();
    push_str(&mut s, "Household · Balances as of ");
    let d = date_text(as_of, DatePattern::DayMonthYear);
    push_str(&mut s, d.as_str());
    proof { assert(s@ =~= balances_as_of(as_of)); }
    s
}

/// The outlook band's title and its description.
pub open spec fn outlook(horizon: i32, postings: nat) -> (Seq<char>, Seq<char>) {
    (
        "Outlook through "@ + calendar_text(horizon, DatePattern::DayMonthYear),
        decimal(postings) + " planned postings, taxes and fees included once"@,
    )
}

pub fn outlook_texts(horizon: i32, postings: u64) -> (r: (String, String))
    requires
        valid_day(horizon as int),
    ensures
        r.0@ == outlook(horizon, postings as nat).0,
        r.1@ == outlook(horizon, postings as nat).1,
{
    let mut title = String::new();
    push_str(&mut title, "Outlook through ");
    let d = date_text(horizon, DatePattern::DayMonthYear);
    push_str(&mut title, d.as_str());
    let mut description = String::new();
    push_decimal(&mut description, postings);
    push_str(&mut description, " planned postings, taxes and fees included once");
    proof {
        assert(title@ =~= outlook(horizon, postings as nat).0);
        assert(description@ =~= outlook(horizon, postings as nat).1);
    }
    (title, description)
}

/// How many of the outlook's assumptions the list shows at first.
pub open spec fn first_assumptions() -> nat { 4 }

/// How many of the outlook's assumptions are listed, and the label of the
/// toggle under them, which appears only when there are more than four.
pub open spec fn assumption_listing(visible: nat, show_all: bool) -> (nat, Option<Seq<char>>) {
    (
        if show_all || visible <= first_assumptions() { visible } else { first_assumptions() },
        if visible > first_assumptions() {
            Some(if show_all { "Show fewer"@ } else { "Show all "@ + decimal(visible) })
        } else {
            None
        },
    )
}

pub fn assumption_listing_of(visible: u64, show_all: bool) -> (r: (u64, Option<String>))
    ensures
        r.0 == assumption_listing(visible as nat, show_all).0,
        match assumption_listing(visible as nat, show_all).1 {
            Some(t) => r.1 matches Some(x) && x@ == t,
            None => r.1 is None,
        },
{
    let shown = if show_all || visible <= 4 { visible } else { 4 };
    let label = if visible > 4 {
        if show_all {
            Some(String::from_str("Show fewer"))
        } else {
            let mut s = String::new();
            push_str(&mut s, "Show all ");
            push_decimal(&mut s, visible);
            proof { assert(s@ =~= "Show all "@ + decimal(visible as nat)); }
            Some(s)
        }
    } else {
        None
    };
    (shown, label)
}

/// Whether every account is a company's (and there is at least one): then
/// Today says that business cash is kept apart from household cash.
pub open spec fn company_only(is_company_account: Seq<bool>) -> bool {
    is_company_account.len() > 0 && forall|i: int| 0 <= i < is_company_account.len() ==> is_company_account[i]
}

pub fn only_company_accounts(is_company_account: &Vec<bool>) -> (r: bool)
    ensures
        r == company_only(is_company_account@),
{
    let n = is_company_account.len();
    if n == 0 {
        return false;
    }
    for i in 0..n
        invariant
            n == is_company_account@.len(),
            forall|j: int| 0 <= j < i ==> is_company_account@[j],
    {
        if !is_company_account[i] {
            return false;
        }
    }
    true
}

} // verus!
