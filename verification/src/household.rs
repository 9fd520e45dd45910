//! The household overview: which projection assumptions a viewer is shown,
//! which accounts are listed to them, and the sentences and share texts of
//! the overview's tables.

use vstd::prelude::*;
use crate::access::{Disclosure, existence_shown};
use crate::text::{
    DatePattern, calendar_text, date_text, decimal, joined, join_texts, push_decimal, push_str, texts,
    valid_day,
};

verus! {

/// An assumption the household projection depends on, with the person it is
/// private to, if any.
#[derive(Clone, Copy, Debug)]
pub struct OverviewAssumption {
    pub id: u64,
    pub private_to: Option<u64>,
}

/// Whether a viewer is shown an assumption: it is private to nobody, or to
/// the viewer.
pub open spec fn assumption_shown(a: OverviewAssumption, viewer: u64) -> bool {
    match a.private_to {
        None => true,
        Some(owner) => owner == viewer,
    }
}

/// The assumptions among `s` that the viewer is shown, in their order.
pub open spec fn shown_assumptions(s: Seq<OverviewAssumption>, viewer: u64) -> Seq<OverviewAssumption>
    decreases s.len(),
{
    if s.len() == 0 {
        Seq::empty()
    } else {
        let prev = shown_assumptions(s.drop_last(), viewer);
        if assumption_shown(s.last(), viewer) { prev.push(s.last()) } else { prev }
    }
}

/// The engine's figures the overview shows, in minor units.
#[derive(Clone, Copy, Debug)]
pub struct OverviewAmounts {
    pub liquid_cash: i64,
    pub reserved: i64,
    pub free: i64,
    pub total_assets: i64,
    pub liabilities: i64,
    pub net_worth: i64,
    /// The projection's conditional cash at the horizon.
    pub conditional: i64,
    /// The projection's conditional unreserved cash at the horizon.
    pub unreserved: i64,
}

/// A figure of the overview: the id its explanation is found by, its label
/// and its amount.
#[derive(Clone, Debug)]
pub struct OverviewFigure {
    pub id: String,
    pub label: String,
    pub amount: i64,
}

pub open spec fn figure_view(f: OverviewFigure) -> (Seq<char>, Seq<char>, i64) {
    (f.id@, f.label@, f.amount)
}

/// The six money figures, in the order the overview shows them.
pub open spec fn money_figures(a: OverviewAmounts) -> Seq<(Seq<char>, Seq<char>, i64)> {
    seq![
        ("liquid-cash"@, "Liquid cash"@, a.liquid_cash),
        ("reserved-cash"@, "Reserved cash"@, a.reserved),
        ("free-cash"@, "Free current cash"@, a.free),
        ("total-assets"@, "Total assets"@, a.total_assets),
        ("liabilities"@, "Liabilities"@, a.liabilities),
        ("net-worth"@, "Net worth"@, a.net_worth),
    ]
}

/// What the overview shows: who is looking, through when, the money
/// figures, the projection's two conditional figures, the assumptions the
/// viewer may see and how many planned occurrences entered the projection.
#[derive(Clone, Debug)]
pub struct HouseholdOverview {
    pub viewer_name: String,
    /// The projection horizon, as a day number.
    pub horizon: i32,
    pub money: Vec<OverviewFigure>,
    pub conditional: OverviewFigure,
    pub unreserved: OverviewFigure,
    pub assumptions: Vec<OverviewAssumption>,
    pub occurrence_count: usize,
}

fn figure(id: &str, label: &str, amount: i64) -> (r: OverviewFigure)
    ensures
        figure_view(r) == (id@, label@, amount),
{
    OverviewFigure { id: id.to_string(), label: label.to_string(), amount }
}

impl HouseholdOverview {
    /// The overview for a viewer, from the engine's figures, the
    /// projection's assumptions and its occurrence count: an assumption
    /// private to someone else is left out.
    pub fn compute(
        viewer_name: String,
        viewer: u64,
        horizon: i32,
        amounts: OverviewAmounts,
        assumptions: &Vec<OverviewAssumption>,
        occurrence_count: usize,
    ) -> (r: HouseholdOverview)
        ensures
            r.viewer_name@ == viewer_name@,
            r.horizon == horizon,
            r.money@.map_values(|f: OverviewFigure| figure_view(f)) == money_figures(amounts),
            figure_view(r.conditional) == ("conditional-cash"@, "Conditional projected cash"@, amounts.conditional),
            figure_view(r.unreserved) == ("unreserved-cash"@, "Conditional projected unreserved cash"@, amounts.unreserved),
            r.assumptions@ == shown_assumptions(assumptions@, viewer),
            r.occurrence_count == occurrence_count,
    {
        let mut kept: Vec<OverviewAssumption> = Vec::new();
        let n = assumptions.len();
        for i in 0..n
            invariant
                n == assumptions@.len(),
                kept@ == shown_assumptions(assumptions@.take(i as int), viewer),
        {
            let a = assumptions[i];
            let shown = match a.private_to {
                None => true,
                Some(owner) => owner == viewer,
            };
            if shown {
                kept.push(a);
            }
            proof {
                assert(assumptions@.take(i + 1).drop_last() =~= assumptions@.take(i as int));
            }
        }
        proof {
            assert(assumptions@.take(n as int) =~= assumptions@);
        }
        let mut money: Vec<OverviewFigure> = Vec::new();
        money.push(figure("liquid-cash", "Liquid cash", amounts.liquid_cash));
        money.push(figure("reserved-cash", "Reserved cash", amounts.reserved));
        money.push(figure("free-cash", "Free current cash", amounts.free));
        money.push(figure("total-assets", "Total assets", amounts.total_assets));
        money.push(figure("liabilities", "Liabilities", amounts.liabilities));
        money.push(figure("net-worth", "Net worth", amounts.net_worth));
        proof {
            assert(money@.map_values(|f: OverviewFigure| figure_view(f)) =~= money_figures(amounts));
        }
        let conditional = figure("conditional-cash", "Conditional projected cash", amounts.conditional);
        let unreserved = figure("unreserved-cash", "Conditional projected unreserved cash", amounts.unreserved);
        HouseholdOverview { viewer_name, horizon, money, conditional, unreserved, assumptions: kept, occurrence_count }
    }
}

/// Every assumption the overview keeps is one the viewer is shown, and one of
/// the projection's.
pub proof fn shown_assumptions_are_visible(s: Seq<OverviewAssumption>, viewer: u64)
    ensures
        forall|i: int| 0 <= i < shown_assumptions(s, viewer).len() ==> {
            let a = #[trigger] shown_assumptions(s, viewer)[i];
            assumption_shown(a, viewer) && s.contains(a)
        },
        shown_assumptions(s, viewer).len() <= s.len(),
    decreases s.len(),
{
    if s.len() > 0 {
        shown_assumptions_are_visible(s.drop_last(), viewer);
        let prev = shown_assumptions(s.drop_last(), viewer);
        assert forall|i: int| 0 <= i < shown_assumptions(s, viewer).len() implies {
            let a = #[trigger] shown_assumptions(s, viewer)[i];
            assumption_shown(a, viewer) && s.contains(a)
        } by {
            if i < prev.len() {
                let a = prev[i];
                let j = choose|j: int| 0 <= j < s.drop_last().len() && s.drop_last()[j] == a;
                assert(s[j] == a);
            } else {
                assert(s[s.len() - 1] == s.last());
            }
        }
    }
}

// ----- the accounts table ------------------------------------------------------

/// The positions of the accounts among `ds` (their disclosures to the viewer)
/// that the table lists: those whose existence the viewer may learn.
pub open spec fn listed_positions(ds: Seq<Disclosure>) -> Seq<usize>
    decreases ds.len(),
{
    if ds.len() == 0 {
        Seq::empty()
    } else {
        let prev = listed_positions(ds.drop_last());
        if existence_shown(ds.last()) { prev.push((ds.len() - 1) as usize) } else { prev }
    }
}

proof fn listed_positions_bounded(ds: Seq<Disclosure>)
    requires
        ds.len() <= usize::MAX,
    ensures
        listed_positions(ds).len() <= ds.len(),
        forall|i: int| 0 <= i < listed_positions(ds).len() ==> {
            let p = #[trigger] listed_positions(ds)[i];
            p < ds.len() && existence_shown(ds[p as int])
        },
    decreases ds.len(),
{
    if ds.len() > 0 {
        let prev = ds.drop_last();
        listed_positions_bounded(prev);
        assert forall|i: int| 0 <= i < listed_positions(ds).len() implies {
            let p = #[trigger] listed_positions(ds)[i];
            p < ds.len() && existence_shown(ds[p as int])
        } by {
            if i < listed_positions(prev).len() {
                let p = listed_positions(prev)[i];
                assert(prev[p as int] == ds[p as int]);
            }
        }
    }
}

/// The accounts the table lists, by position, and how many it leaves out.
pub fn listed_accounts(disclosures: &Vec<Disclosure>) -> (r: (Vec<usize>, usize))
    ensures
        r.0@ == listed_positions(disclosures@),
        r.0@.len() + r.1 == disclosures@.len(),
        forall|i: int| 0 <= i < r.0@.len() ==> {
            let p = #[trigger] r.0@[i];
            p < disclosures@.len() && existence_shown(disclosures@[p as int])
        },
{
    let mut listed: Vec<usize> = Vec::new();
    let n = disclosures.len();
    for i in 0..n
        invariant
            n == disclosures@.len(),
            listed@ == listed_positions(disclosures@.take(i as int)),
    {
        let shown = match disclosures[i] {
            Disclosure::Hidden | Disclosure::Aggregate => false,
            _ => true,
        };
        if shown {
            listed.push(i);
        }
        proof {
            assert(disclosures@.take(i + 1).drop_last() =~= disclosures@.take(i as int));
        }
    }
    proof {
        assert(disclosures@.take(n as int) =~= disclosures@);
        listed_positions_bounded(disclosures@);
    }
    let hidden = n - listed.len();
    (listed, hidden)
}

/// The note under the accounts table.
pub open spec fn visible_note(visible: nat, total: nat, viewer_name: Seq<char>) -> Seq<char> {
    decimal(visible) + " of "@ + decimal(total) + " accounts are visible to "@ + viewer_name
        + " under the current access policies; the others may still contribute to household figures as authorized aggregates."@
}

pub fn visible_note_text(visible: u64, total: u64, viewer_name: &str) -> (r: String)
    ensures
        r@ == visible_note(visible as nat, total as nat, viewer_name@),
{
    let mut s = String::new();
    push_decimal(&mut s, visible);
    push_str(&mut s, " of ");
    push_decimal(&mut s, total);
    push_str(&mut s, " accounts are visible to ");
    push_str(&mut s, viewer_name);
    push_str(&mut s, " under the current access policies; the others may still contribute to household figures as authorized aggregates.");
    proof {
        assert(s@ =~= visible_note(visible as nat, total as nat, viewer_name@));
    }
    s
}

/// The line under the table when some accounts are left out; none when every
/// account is listed.
pub open spec fn unlisted_note(hidden: nat) -> Option<Seq<char>> {
    if hidden == 0 {
        None
    } else {
        Some(decimal(hidden) + " account(s) not listed: their existence is not disclosed to this viewer."@)
    }
}

pub fn unlisted_note_text(hidden: u64) -> (r: Option<String>)
    ensures
        r matches Some(t) ==> unlisted_note(hidden as nat) == Some(t@),
        r is None <==> unlisted_note(hidden as nat) is None,
{
    if hidden == 0 {
        return None;
    }
    let mut s = String::new();
    push_decimal(&mut s, hidden);
    push_str(&mut s, " account(s) not listed: their existence is not disclosed to this viewer.");
    proof {
        assert(s@ =~= decimal(hidden as nat) + " account(s) not listed: their existence is not disclosed to this viewer."@);
    }
    Some(s)
}

// ----- the people and companies tables ----------------------------------------

/// `Joint current (50%)`: a holding with the holder's whole percent.
pub open spec fn holding(name: Seq<char>, basis_points: nat) -> Seq<char> {
    name + " ("@ + decimal(basis_points / 100) + "%)"@
}

pub fn holding_text(name: &str, basis_points: u64) -> (r: String)
    ensures
        r@ == holding(name@, basis_points as nat),
{
    let mut s = String::new();
    push_str(&mut s, name);
    push_str(&mut s, " (");
    push_decimal(&mut s, basis_points / 100);
    push_str(&mut s, "%)");
    proof {
        assert(s@ =~= holding(name@, basis_points as nat));
    }
    s
}

/// `Person A 60%`: a company owner with their whole percent.
pub open spec fn owner_line(name: Seq<char>, basis_points: nat) -> Seq<char> {
    name + " "@ + decimal(basis_points / 100) + "%"@
}

pub fn owner_line_text(name: &str, basis_points: u32) -> (r: String)
    ensures
        r@ == owner_line(name@, basis_points as nat),
{
    let mut s = String::new();
    push_str(&mut s, name);
    push_str(&mut s, " ");
    push_decimal(&mut s, (basis_points / 100) as u64);
    push_str(&mut s, "%");
    proof {
        assert(s@ =~= owner_line(name@, basis_points as nat));
    }
    s
}

/// One ownership entry of a company: the owning person and their share.
#[derive(Clone, Copy, Debug)]
pub struct Ownership {
    pub person: u64,
    pub basis_points: u32,
}

/// The basis points that the entries among `owners` give one person.
pub open spec fn owned_points(owners: Seq<Ownership>, person: u64) -> nat
    decreases owners.len(),
{
    if owners.len() == 0 {
        0
    } else {
        owned_points(owners.drop_last(), person) + if owners.last().person == person {
            owners.last().basis_points as nat
        } else {
            0
        }
    }
}

proof fn owned_points_grow(owners: Seq<Ownership>, person: u64, k: int)
    requires
        0 <= k <= owners.len(),
    ensures
        owned_points(owners.take(k), person) <= owned_points(owners, person),
    decreases owners.len() - k,
{
    if k < owners.len() {
        owned_points_grow(owners, person, k + 1);
        assert(owners.take(k + 1).drop_last() =~= owners.take(k));
    } else {
        assert(owners.take(k) =~= owners);
    }
}

/// A person's whole percent of a company: their entries summed, in basis
/// points, then divided by one hundred. The sum is a `u32` and must fit one.
pub fn owned_percent(owners: &Vec<Ownership>, person: u64) -> (r: u32)
    requires
        owned_points(owners@, person) <= u32::MAX,
    ensures
        r == owned_points(owners@, person) / 100,
{
    let mut sum: u32 = 0;
    let n = owners.len();
    for i in 0..n
        invariant
            n == owners@.len(),
            owned_points(owners@, person) <= u32::MAX,
            sum == owned_points(owners@.take(i as int), person),
    {
        proof {
            assert(owners@.take(i + 1).drop_last() =~= owners@.take(i as int));
            owned_points_grow(owners@, person, i + 1);
        }
        if owners[i].person == person {
            sum = sum + owners[i].basis_points;
        }
    }
    proof {
        assert(owners@.take(n as int) =~= owners@);
    }
    sum / 100
}

/// A table cell of entries: `—` when there are none, else the entries joined
/// by ` · `.
pub open spec fn entries_cell(items: Seq<Seq<char>>) -> Seq<char> {
    if items.len() == 0 { "—"@ } else { joined(items, " · "@) }
}

pub fn entries_cell_text(items: &Vec<String>) -> (r: String)
    ensures
        r@ == entries_cell(texts(items@)),
{
    if items.len() == 0 {
        "—".to_string()
    } else {
        join_texts(items, " · ")
    }
}

// ----- the overview's sentences ------------------------------------------------

/// The line under the heading: the household, when its balances were
/// reconciled, its counts and who is looking.
pub open spec fn overview_line(
    name: Seq<char>,
    as_of: i32,
    people: nat,
    companies: nat,
    accounts: nat,
    viewer_name: Seq<char>,
) -> Seq<char> {
    name + " · balances reconciled "@ + calendar_text(as_of, DatePattern::DayMonthYear) + " · "@ + decimal(people)
        + " people · "@ + decimal(companies) + " companies · "@ + decimal(accounts) + " accounts · viewing as "@
        + viewer_name
}

pub fn overview_line_text(
    name: &str,
    as_of: i32,
    people: u64,
    companies: u64,
    accounts: u64,
    viewer_name: &str,
) -> (r: String)
    requires
        valid_day(as_of as int),
    ensures
        r@ == overview_line(name@, as_of, people as nat, companies as nat, accounts as nat, viewer_name@),
{
    let mut s = String::new();
    push_str(&mut s, name);
    push_str(&mut s, " · balances reconciled ");
    let d = date_text(as_of, DatePattern::DayMonthYear);
    push_str(&mut s, d.as_str());
    push_str(&mut s, " · ");
    push_decimal(&mut s, people);
    push_str(&mut s, " people · ");
    push_decimal(&mut s, companies);
    push_str(&mut s, " companies · ");
    push_decimal(&mut s, accounts);
    push_str(&mut s, " accounts · viewing as ");
    push_str(&mut s, viewer_name);
    proof {
        assert(s@ =~= overview_line(name@, as_of, people as nat, companies as nat, accounts as nat, viewer_name@));
    }
    s
}

/// The sentence under the conditional figures.
pub open spec fn occurrences_note(count: nat) -> Seq<char> {
    decimal(count)
        + " planned occurrences entered the chain. Only the first term is money already received; the rest is conditional on the assumptions below."@
}

pub fn occurrences_note_text(count: u64) -> (r: String)
    ensures
        r@ == occurrences_note(count as nat),
{
    let mut s = String::new();
    push_decimal(&mut s, count);
    push_str(
        &mut s,
        " planned occurrences entered the chain. Only the first term is money already received; the rest is conditional on the assumptions below.",
    );
    proof {
        assert(s@ =~= occurrences_note(count as nat));
    }
    s
}

/// Where an assumption comes from and whether it was accepted, and when.
pub open spec fn acceptance(source: Seq<char>, accepted_on: Option<i32>) -> Seq<char> {
    match accepted_on {
        Some(day) => source + " · accepted "@ + calendar_text(day, DatePattern::DayMonthYear),
        None => source + " · not yet accepted"@,
    }
}

pub fn acceptance_text(source: &str, accepted_on: Option<i32>) -> (r: String)
    requires
        accepted_on matches Some(day) ==> valid_day(day as int),
    ensures
        r@ == acceptance(source@, accepted_on),
{
    let mut s = String::new();
    push_str(&mut s, source);
    match accepted_on {
        Some(day) => {
            push_str(&mut s, " · accepted ");
            let d = date_text(day, DatePattern::DayMonthYear);
            push_str(&mut s, d.as_str());
        },
        None => {
            push_str(&mut s, " · not yet accepted");
        },
    }
    proof {
        assert(s@ =~= acceptance(source@, accepted_on));
    }
    s
}

/// The title of the overview's projection.
pub open spec fn projection_title(horizon: i32) -> Seq<char> {
    "Conditional projection through "@ + calendar_text(horizon, DatePattern::DayMonthYear)
}

pub fn projection_title_text(horizon: i32) -> (r: String)
    requires
        valid_day(horizon as int),
    ensures
        r@ == projection_title(horizon),
{
    let mut s = String::new();
    push_str(&mut s, "Conditional projection through ");
    let d = date_text(horizon, DatePattern::DayMonthYear);
    push_str(&mut s, d.as_str());
    proof { assert(s@ =~= projection_title(horizon)); }
    s
}

} // verus!
