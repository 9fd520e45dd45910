//! People and companies: which of a person's companies, liabilities and
//! income the viewer is shown, how the holdings' notes and cells read, and
//! the registers' selection and empty states.

use vstd::prelude::*;
use crate::access::{Disclosure, balance_shown, derived_shown, existence_shown};
use crate::text::{
    DatePattern, calendar_text, date_text, decimal, joined, join_texts, push_decimal, push_str, texts,
    valid_day,
};

verus! {

// ----- a person's holdings ----------------------------------------------------

/// The positions among `ds` (a person's companies, by their disclosure to the
/// viewer) of the companies listed: all but the hidden ones. A company
/// disclosed only in aggregate is still listed, with its details withheld.
pub open spec fn listed_companies(ds: Seq<Disclosure>) -> Seq<usize>
    decreases ds.len(),
{
    if ds.len() == 0 {
        Seq::empty()
    } else {
        let prev = listed_companies(ds.drop_last());
        if ds.last() != Disclosure::Hidden { prev.push((ds.len() - 1) as usize) } else { prev }
    }
}

proof fn listed_companies_bounded(ds: Seq<Disclosure>)
    ensures
        listed_companies(ds).len() <= ds.len(),
    decreases ds.len(),
{
    if ds.len() > 0 {
        listed_companies_bounded(ds.drop_last());
    }
}

/// The companies a person's detail lists, by position, and how many it
/// leaves out.
pub fn person_companies(disclosures: &Vec<Disclosure>) -> (r: (Vec<usize>, usize))
    ensures
        r.0@ == listed_companies(disclosures@),
        r.0@.len() + r.1 == disclosures@.len(),
{
    let mut listed: Vec<usize> = Vec::new();
    let n = disclosures.len();
    for i in 0..n
        invariant
            n == disclosures@.len(),
            listed@ == listed_companies(disclosures@.take(i as int)),
    {
        if disclosures[i] != Disclosure::Hidden {
            listed.push(i);
        }
        proof {
            assert(disclosures@.take(i + 1).drop_last() =~= disclosures@.take(i as int));
        }
    }
    proof {
        assert(disclosures@.take(n as int) =~= disclosures@);
        listed_companies_bounded(disclosures@);
    }
    let hidden = n - listed.len();
    (listed, hidden)
}

/// An account of the person as the liabilities band reads it.
#[derive(Clone, Copy, Debug)]
pub struct HeldAccount {
    pub liability: bool,
    pub disclosure: Disclosure,
}

/// The positions of the liabilities the band shows: liability accounts whose
/// balance the viewer may see.
pub open spec fn shown_liabilities(accounts: Seq<HeldAccount>) -> Seq<usize>
    decreases accounts.len(),
{
    if accounts.len() == 0 {
        Seq::empty()
    } else {
        let prev = shown_liabilities(accounts.drop_last());
        let a = accounts.last();
        if a.liability && balance_shown(a.disclosure) { prev.push((accounts.len() - 1) as usize) } else { prev }
    }
}

pub fn liabilities(accounts: &Vec<HeldAccount>) -> (r: Vec<usize>)
    ensures
        r@ == shown_liabilities(accounts@),
{
    let mut kept: Vec<usize> = Vec::new();
    let n = accounts.len();
    for i in 0..n
        invariant
            n == accounts@.len(),
            kept@ == shown_liabilities(accounts@.take(i as int)),
    {
        let a = accounts[i];
        let shown = match a.disclosure {
            Disclosure::Full | Disclosure::SelectedFields | Disclosure::BalanceOnly => true,
            _ => false,
        };
        if a.liability && shown {
            kept.push(i);
        }
        proof {
            assert(accounts@.take(i + 1).drop_last() =~= accounts@.take(i as int));
        }
    }
    proof {
        assert(accounts@.take(n as int) =~= accounts@);
    }
    kept
}

/// The positions of the income series the detail lists: those posting to an
/// account whose existence the viewer may learn.
pub open spec fn shown_income(posting: Seq<Disclosure>) -> Seq<usize>
    decreases posting.len(),
{
    if posting.len() == 0 {
        Seq::empty()
    } else {
        let prev = shown_income(posting.drop_last());
        if existence_shown(posting.last()) { prev.push((posting.len() - 1) as usize) } else { prev }
    }
}

pub fn income_series(posting: &Vec<Disclosure>) -> (r: Vec<usize>)
    ensures
        r@ == shown_income(posting@),
{
    let mut kept: Vec<usize> = Vec::new();
    let n = posting.len();
    for i in 0..n
        invariant
            n == posting@.len(),
            kept@ == shown_income(posting@.take(i as int)),
    {
        let shown = match posting[i] {
            Disclosure::Hidden | Disclosure::Aggregate => false,
            _ => true,
        };
        if shown {
            kept.push(i);
        }
        proof {
            assert(posting@.take(i + 1).drop_last() =~= posting@.take(i as int));
        }
    }
    proof {
        assert(posting@.take(n as int) =~= posting@);
    }
    kept
}

/// What a holdings register says in place of its rows: how many are not
/// disclosed, or that there are none (`empty` is `No account yet.` or
/// `No company.`).
pub open spec fn holdings_empty_note(hidden: nat, empty: Seq<char>) -> Seq<char> {
    if hidden > 0 { decimal(hidden) + " not disclosed to this viewer."@ } else { empty }
}

pub fn holdings_empty_note_text(hidden: u64, empty: &str) -> (r: String)
    ensures
        r@ == holdings_empty_note(hidden as nat, empty@),
{
    let mut s = String::new();
    if hidden > 0 {
        push_decimal(&mut s, hidden);
        push_str(&mut s, " not disclosed to this viewer.");
    } else {
        push_str(&mut s, empty);
    }
    proof {
        assert(s@ =~= holdings_empty_note(hidden as nat, empty@));
    }
    s
}

/// The line under a holdings register that lists rows but leaves some out.
pub open spec fn more_hidden_note(hidden: nat, listed: nat) -> Option<Seq<char>> {
    if hidden > 0 && listed > 0 { Some(decimal(hidden) + " more not disclosed to this viewer."@) } else { None }
}

pub fn more_hidden_note_text(hidden: u64, listed: usize) -> (r: Option<String>)
    ensures
        r is Some <==> more_hidden_note(hidden as nat, listed as nat) is Some,
        r matches Some(t) ==> more_hidden_note(hidden as nat, listed as nat) == Some(t@),
{
    if hidden > 0 && listed > 0 {
        let mut s = String::new();
        push_decimal(&mut s, hidden);
        push_str(&mut s, " more not disclosed to this viewer.");
        proof {
            assert(s@ =~= decimal(hidden as nat) + " more not disclosed to this viewer."@);
        }
        Some(s)
    } else {
        None
    }
}

/// A share cell: the whole percent of a share in basis points.
pub open spec fn share_cell(basis_points: nat) -> Seq<char> {
    decimal(basis_points / 100) + "%"@
}

pub fn share_cell_text(basis_points: u64) -> (r: String)
    ensures
        r@ == share_cell(basis_points as nat),
{
    let mut s = String::new();
    push_decimal(&mut s, basis_points / 100);
    push_str(&mut s, "%");
    proof {
        assert(s@ =~= share_cell(basis_points as nat));
    }
    s
}

/// An account's kind, marked when it is a liability.
pub open spec fn kind_cell(kind: Seq<char>, liability: bool) -> Seq<char> {
    kind + if liability { " · liability"@ } else { Seq::empty() }
}

pub fn kind_cell_text(kind: &str, liability: bool) -> (r: String)
    ensures
        r@ == kind_cell(kind@, liability),
{
    let mut s = String::new();
    push_str(&mut s, kind);
    if liability {
        push_str(&mut s, " · liability");
    }
    proof {
        assert(s@ =~= kind_cell(kind@, liability));
    }
    s
}

/// The person's roles in a company: withheld unless derived details are
/// disclosed, else their roles by comma or that there is none.
pub open spec fn company_roles(disclosure: Disclosure, roles: Seq<Seq<char>>) -> Seq<char> {
    if derived_shown(disclosure) {
        if roles.len() == 0 { "No company role"@ } else { joined(roles, ", "@) }
    } else {
        "Not disclosed"@
    }
}

pub fn company_roles_text(disclosure: Disclosure, roles: &Vec<String>) -> (r: String)
    ensures
        r@ == company_roles(disclosure, texts(roles@)),
{
    match disclosure {
        Disclosure::Full | Disclosure::SelectedFields => {
            if roles.len() == 0 {
                "No company role".to_string()
            } else {
                join_texts(roles, ", ")
            }
        },
        _ => "Not disclosed".to_string(),
    }
}

/// The tax band's sentence: the packs a figure was computed under, and
/// either that it is a planning estimate or that nothing was attributed.
pub open spec fn packs_suffix(packs: Seq<Seq<char>>) -> Seq<char> {
    if packs.len() == 0 { Seq::empty() } else { " under "@ + joined(packs, ", "@) }
}

pub open spec fn person_tax_note(has_total: bool, name: Seq<char>, through: i32, packs: Seq<Seq<char>>) -> Seq<char> {
    if has_total {
        "Expected baseline through the forecast end"@ + packs_suffix(packs) + ". A planning estimate, not a filing."@
    } else {
        "No tax event attributed to "@ + name + " through "@ + calendar_text(through, DatePattern::DayMonthYear)
            + packs_suffix(packs) + "."@
    }
}

pub fn person_tax_note_text(has_total: bool, name: &str, through: i32, packs: &Vec<String>) -> (r: String)
    requires
        valid_day(through as int),
    ensures
        r@ == person_tax_note(has_total, name@, through, texts(packs@)),
{
    let mut suffix = String::new();
    if packs.len() > 0 {
        push_str(&mut suffix, " under ");
        let names = join_texts(packs, ", ");
        push_str(&mut suffix, names.as_str());
    }
    proof {
        assert(suffix@ =~= packs_suffix(texts(packs@)));
    }
    let mut s = String::new();
    if has_total {
        push_str(&mut s, "Expected baseline through the forecast end");
        push_str(&mut s, suffix.as_str());
        push_str(&mut s, ". A planning estimate, not a filing.");
    } else {
        push_str(&mut s, "No tax event attributed to ");
        push_str(&mut s, name);
        push_str(&mut s, " through ");
        let d = date_text(through, DatePattern::DayMonthYear);
        push_str(&mut s, d.as_str());
        push_str(&mut s, suffix.as_str());
        push_str(&mut s, ".");
    }
    proof {
        assert(s@ =~= person_tax_note(has_total, name@, through, texts(packs@)));
    }
    s
}

// ----- a company's detail ------------------------------------------------------

/// `Person A · 60% owner`.
pub open spec fn owner_entry(name: Seq<char>, basis_points: nat) -> Seq<char> {
    name + " · "@ + decimal(basis_points / 100) + "% owner"@
}

pub fn owner_entry_text(name: &str, basis_points: u32) -> (r: String)
    ensures
        r@ == owner_entry(name@, basis_points as nat),
{
    let mut s = String::new();
    push_str(&mut s, name);
    push_str(&mut s, " · ");
    push_decimal(&mut s, (basis_points / 100) as u64);
    push_str(&mut s, "% owner");
    proof {
        assert(s@ =~= owner_entry(name@, basis_points as nat));
    }
    s
}

/// The earmarks active on a company account: `None`, or each by name and
/// amount, joined by ` · `.
pub open spec fn earmarks_cell(earmarks: Seq<Seq<char>>) -> Seq<char> {
    if earmarks.len() == 0 { "None"@ } else { joined(earmarks, " · "@) }
}

pub fn earmarks_cell_text(earmarks: &Vec<String>) -> (r: String)
    ensures
        r@ == earmarks_cell(texts(earmarks@)),
{
    if earmarks.len() == 0 {
        "None".to_string()
    } else {
        join_texts(earmarks, " · ")
    }
}

/// The empty companies register's hint: a company needs an owner first.
pub open spec fn companies_empty_hint(people: nat) -> Seq<char> {
    if people == 0 {
        "A company needs an owner, so add a person first."@
    } else {
        "A company keeps its own ledger; its cash is never household cash."@
    }
}

pub fn companies_empty_hint_text(people: usize) -> (r: String)
    ensures
        r@ == companies_empty_hint(people as nat),
{
    if people == 0 {
        "A company needs an owner, so add a person first.".to_string()
    } else {
        "A company keeps its own ledger; its cash is never household cash.".to_string()
    }
}

/// The selection a register shows: the selected entity while it is still
/// among the listed ones, none otherwise.
pub open spec fn selection_in(selected: Option<u64>, listed: Seq<u64>) -> Option<u64> {
    match selected {
        Some(id) => if listed.contains(id) { Some(id) } else { None },
        None => None,
    }
}

pub fn shown_selection(selected: Option<u64>, listed: &Vec<u64>) -> (r: Option<u64>)
    ensures
        r == selection_in(selected, listed@),
{
    match selected {
        None => None,
        Some(id) => {
            let n = listed.len();
            for i in 0..n
                invariant
                    n == listed@.len(),
                    selected == Some(id),
                    forall|j: int| 0 <= j < i ==> listed@[j] != id,
            {
                if listed[i] == id {
                    return Some(id);
                }
            }
            None
        },
    }
}

/// A company's jurisdiction line.
pub open spec fn jurisdiction_line(jurisdiction: Seq<char>) -> Seq<char> {
    "Jurisdiction "@ + jurisdiction
}

pub fn jurisdiction_line_text(jurisdiction: &str) -> (r: String)
    ensures
        r@ == jurisdiction_line(jurisdiction@),
{
    let mut s = String::new();
    push_str(&mut s, "Jurisdiction ");
    push_str(&mut s, jurisdiction);
    proof { assert(s@ =~= jurisdiction_line(jurisdiction@)); }
    s
}

} // verus!
