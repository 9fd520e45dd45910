//! Liquidity & reservations: the boundaries a viewer may pick, the boundary
//! shown when the one asked for is not among them, the spendable amount and
//! the deficit read from signed headroom, the earmarks a boundary lists, the
//! accounts a viewer may earmark, and the screen's sentences.

use vstd::prelude::*;
use crate::access::{Disclosure, derived_shown, existence_shown, shows_derived, shows_existence};
use crate::text::{DatePattern, calendar_text, date_text, decimal, push_decimal, push_str, valid_day};

verus! {

/// Whose money a figure or a path is about.
#[derive(Clone, Copy, PartialEq, Eq, Debug, Structural)]
pub enum Boundary {
    Household,
    Person(u64),
    Company(u64),
    Account(u64),
}

/// A company and what the viewer is shown of it.
#[derive(Clone, Copy, Debug)]
pub struct CompanyAccess {
    pub id: u64,
    pub disclosure: Disclosure,
}

/// The companies among the first `k` that the viewer sees in full or in
/// selected fields, as boundaries.
pub open spec fn company_boundaries(companies: Seq<CompanyAccess>, k: nat) -> Seq<Boundary>
    decreases k,
{
    if k == 0 || k > companies.len() {
        Seq::empty()
    } else {
        let prev = company_boundaries(companies, (k - 1) as nat);
        let c = companies[k - 1];
        if derived_shown(c.disclosure) { prev.push(Boundary::Company(c.id)) } else { prev }
    }
}

/// The boundaries a viewer may pick: the household, every person, then every
/// company shown in full or in selected fields.
pub open spec fn boundary_list(people: Seq<u64>, companies: Seq<CompanyAccess>) -> Seq<Boundary> {
    seq![Boundary::Household] + people.map_values(|p: u64| Boundary::Person(p))
        + company_boundaries(companies, companies.len())
}

pub fn boundary_choices(people: &Vec<u64>, companies: &Vec<CompanyAccess>) -> (r: Vec<Boundary>)
    ensures
        r@ == boundary_list(people@, companies@),
{
    let mut r: Vec<Boundary> = Vec::new();
    r.push(Boundary::Household);
    let np = people.len();
    for i in 0..np
        invariant
            np == people@.len(),
            r@ == seq![Boundary::Household] + people@.take(i as int).map_values(|p: u64| Boundary::Person(p)),
    {
        r.push(Boundary::Person(people[i]));
        proof {
            assert(people@.take(i + 1).map_values(|p: u64| Boundary::Person(p))
                =~= people@.take(i as int).map_values(|p: u64| Boundary::Person(p)).push(Boundary::Person(people@[i as int])));
        }
    }
    proof { assert(people@.take(np as int) =~= people@); }
    let ghost base = r@;
    let nc = companies.len();
    for i in 0..nc
        invariant
            nc == companies@.len(),
            r@ == base + company_boundaries(companies@, i as nat),
    {
        let c = companies[i];
        if shows_derived(c.disclosure) {
            r.push(Boundary::Company(c.id));
            proof {
                assert(base + company_boundaries(companies@, (i + 1) as nat)
                    =~= (base + company_boundaries(companies@, i as nat)).push(Boundary::Company(c.id)));
            }
        }
    }
    r
}

/// The boundary shown: the one asked for when it is among the choices,
/// otherwise the household.
pub open spec fn resolved_boundary(choices: Seq<Boundary>, requested: Boundary) -> Boundary {
    if choices.contains(requested) { requested } else { Boundary::Household }
}

pub fn resolve_boundary(choices: &Vec<Boundary>, requested: Boundary) -> (r: Boundary)
    ensures
        r == resolved_boundary(choices@, requested),
{
    let n = choices.len();
    for i in 0..n
        invariant
            n == choices@.len(),
            forall|j: int| 0 <= j < i ==> choices@[j] != requested,
    {
        if choices[i] == requested {
            proof { assert(choices@.contains(requested)); }
            return requested;
        }
    }
    proof {
        assert(!choices@.contains(requested));
    }
    Boundary::Household
}

/// The tab selected for a boundary: its first position among the choices,
/// or the first tab when it is not among them.
pub open spec fn boundary_tab_of(choices: Seq<Boundary>, b: Boundary) -> nat {
    if choices.contains(b) {
        (choose|i: int| 0 <= i < choices.len() && choices[i] == b && forall|j: int| 0 <= j < i ==> choices[j] != b) as nat
    } else {
        0
    }
}

pub fn boundary_tab(choices: &Vec<Boundary>, b: Boundary) -> (r: usize)
    ensures
        r == boundary_tab_of(choices@, b),
        choices@.contains(b) ==> r < choices@.len() && choices@[r as int] == b,
{
    let n = choices.len();
    for i in 0..n
        invariant
            n == choices@.len(),
            forall|j: int| 0 <= j < i ==> choices@[j] != b,
    {
        if choices[i] == b {
            proof {
                assert(choices@[i as int] == b);
                assert(choices@.contains(b));
                assert(0 <= i < choices@.len() && choices@[i as int] == b && forall|j: int| 0 <= j < i ==> choices@[j] != b);
                let c = choose|c: int| 0 <= c < choices@.len() && choices@[c] == b && forall|j: int| 0 <= j < c ==> choices@[j] != b;
                if c < i {
                    assert(choices@[c] != b);
                } else if c > i {
                    assert(choices@[i as int] != b);
                }
            }
            return i;
        }
    }
    proof {
        assert(!choices@.contains(b));
    }
    0
}

/// The tab selected on the liquidity screen is the boundary shown.
pub proof fn selected_tab_shows_the_boundary(people: Seq<u64>, companies: Seq<CompanyAccess>, requested: Boundary)
    ensures
        ({
            let l = boundary_list(people, companies);
            let b = resolved_boundary(l, requested);
            let t = boundary_tab_of(l, b);
            t < l.len() && l[t as int] == b
        }),
{
    resolved_boundary_is_a_choice(people, companies, requested);
    let l = boundary_list(people, companies);
    let b = resolved_boundary(l, requested);
    let w = choose|i: int| 0 <= i < l.len() && l[i] == b;
    first_position_exists(l, b, w);
}

/// A value present in a list has a first position.
proof fn first_position_exists(l: Seq<Boundary>, b: Boundary, w: int)
    requires
        0 <= w < l.len(),
        l[w] == b,
    ensures
        exists|i: int| 0 <= i < l.len() && l[i] == b && forall|j: int| 0 <= j < i ==> l[j] != b,
    decreases w,
{
    if exists|j: int| 0 <= j < w && l[j] == b {
        let j = choose|j: int| 0 <= j < w && l[j] == b;
        first_position_exists(l, b, j);
    } else {
        assert(0 <= w < l.len() && l[w] == b && forall|j: int| 0 <= j < w ==> l[j] != b);
    }
}

/// The boundary shown is always one the viewer may pick.
pub proof fn resolved_boundary_is_a_choice(people: Seq<u64>, companies: Seq<CompanyAccess>, requested: Boundary)
    ensures
        boundary_list(people, companies).contains(resolved_boundary(boundary_list(people, companies), requested)),
        boundary_list(people, companies)[0] == Boundary::Household,
{
    let l = boundary_list(people, companies);
    assert(l[0] == Boundary::Household);
    if !l.contains(requested) {
        assert(l.contains(l[0]));
    }
}

/// The amount shown as spendable: headroom over the hard floors, floored at zero.
pub open spec fn spendable(headroom: int) -> int {
    if headroom > 0 { headroom } else { 0 }
}

/// The deficit against the hard floors: how far headroom is below zero.
pub open spec fn deficit(headroom: int) -> int {
    if headroom < 0 { -headroom } else { 0 }
}

/// Spendable and deficit of a signed headroom, in minor units.
pub fn spendable_and_deficit(headroom: i64) -> (r: (u64, u64))
    ensures
        r.0 == spendable(headroom as int),
        r.1 == deficit(headroom as int),
{
    if headroom > 0 {
        (headroom as u64, 0)
    } else if headroom == 0 {
        (0, 0)
    } else {
        let d: i128 = -(headroom as i128);
        (0, d as u64)
    }
}

/// The zero floor never hides a deficit: spendable less deficit is the
/// signed headroom, and at most one of them is not zero.
pub proof fn floor_keeps_the_deficit(headroom: int)
    ensures
        spendable(headroom) - deficit(headroom) == headroom,
        spendable(headroom) == 0 || deficit(headroom) == 0,
        spendable(headroom) >= 0 && deficit(headroom) >= 0,
{
}

/// An earmark and what the viewer is shown of it.
#[derive(Clone, Copy, Debug)]
pub struct ReservationAccess {
    pub id: u64,
    pub account: u64,
    pub disclosure: Disclosure,
}

/// The earmarks among the first `k` that a boundary lists: those on one of
/// its accounts whose existence the viewer may learn.
pub open spec fn listed_reservations(rs: Seq<ReservationAccess>, accounts: Seq<u64>, k: nat) -> Seq<u64>
    decreases k,
{
    if k == 0 || k > rs.len() {
        Seq::empty()
    } else {
        let prev = listed_reservations(rs, accounts, (k - 1) as nat);
        let r = rs[k - 1];
        if accounts.contains(r.account) && existence_shown(r.disclosure) { prev.push(r.id) } else { prev }
    }
}

proof fn listed_reservations_members(rs: Seq<ReservationAccess>, accounts: Seq<u64>, k: nat)
    requires
        k <= rs.len(),
    ensures
        forall|i: int| 0 <= i < listed_reservations(rs, accounts, k).len() ==> exists|j: int|
            0 <= j < k && rs[j].id == #[trigger] listed_reservations(rs, accounts, k)[i] && accounts.contains(rs[j].account)
                && rs[j].disclosure != Disclosure::Hidden && rs[j].disclosure != Disclosure::Aggregate,
        forall|j: int| 0 <= j < k && accounts.contains(#[trigger] rs[j].account) && rs[j].disclosure != Disclosure::Hidden
            && rs[j].disclosure != Disclosure::Aggregate ==> listed_reservations(rs, accounts, k).contains(rs[j].id),
    decreases k,
{
    if k > 0 {
        listed_reservations_members(rs, accounts, (k - 1) as nat);
        let prev = listed_reservations(rs, accounts, (k - 1) as nat);
        let cur = listed_reservations(rs, accounts, k);
        assert forall|i: int| 0 <= i < cur.len() implies exists|j: int|
            0 <= j < k && rs[j].id == #[trigger] cur[i] && accounts.contains(rs[j].account)
                && rs[j].disclosure != Disclosure::Hidden && rs[j].disclosure != Disclosure::Aggregate by {
            if i < prev.len() {
                assert(cur[i] == prev[i]);
            } else {
                assert(cur[i] == rs[k - 1].id);
            }
        }
        assert forall|j: int| 0 <= j < k && accounts.contains(#[trigger] rs[j].account) && rs[j].disclosure != Disclosure::Hidden
            && rs[j].disclosure != Disclosure::Aggregate implies cur.contains(rs[j].id) by {
            if j < k - 1 {
                let m = choose|m: int| 0 <= m < prev.len() && prev[m] == rs[j].id;
                assert(cur[m] == rs[j].id);
            } else {
                assert(cur[cur.len() - 1] == rs[j].id);
            }
        }
    }
}

/// A boundary lists the earmarks on its accounts whose existence the viewer
/// may learn, and no other: every id it lists is that of an earmark on one
/// of its accounts that is neither hidden from the viewer nor disclosed only
/// as part of an aggregate, and every such earmark is listed.
pub proof fn boundary_lists_only_disclosed_earmarks(rs: Seq<ReservationAccess>, accounts: Seq<u64>)
    ensures
        forall|i: int| 0 <= i < listed_reservations(rs, accounts, rs.len()).len() ==> exists|j: int|
            0 <= j < rs.len() && rs[j].id == #[trigger] listed_reservations(rs, accounts, rs.len())[i]
                && accounts.contains(rs[j].account) && rs[j].disclosure != Disclosure::Hidden
                && rs[j].disclosure != Disclosure::Aggregate,
        forall|j: int| 0 <= j < rs.len() && accounts.contains(#[trigger] rs[j].account) && rs[j].disclosure != Disclosure::Hidden
            && rs[j].disclosure != Disclosure::Aggregate ==> listed_reservations(rs, accounts, rs.len()).contains(rs[j].id),
{
    listed_reservations_members(rs, accounts, rs.len());
}

fn contains_id(ids: &Vec<u64>, id: u64) -> (r: bool)
    ensures
        r == ids@.contains(id),
{
    let n = ids.len();
    for i in 0..n
        invariant
            n == ids@.len(),
            forall|j: int| 0 <= j < i ==> ids@[j] != id,
    {
        if ids[i] == id {
            proof { assert(ids@.contains(id)); }
            return true;
        }
    }
    false
}

pub fn boundary_reservations(reservations: &Vec<ReservationAccess>, accounts: &Vec<u64>) -> (r: Vec<u64>)
    ensures
        r@ == listed_reservations(reservations@, accounts@, reservations@.len()),
{
    let mut out: Vec<u64> = Vec::new();
    let n = reservations.len();
    for i in 0..n
        invariant
            n == reservations@.len(),
            out@ == listed_reservations(reservations@, accounts@, i as nat),
    {
        let r = reservations[i];
        if contains_id(accounts, r.account) && shows_existence(r.disclosure) {
            out.push(r.id);
        }
    }
    out
}

/// An account the viewer might earmark.
#[derive(Clone, Copy, Debug)]
pub struct AccountAccess {
    pub id: u64,
    pub is_company_account: bool,
    pub disclosure: Disclosure,
}

/// The accounts among the first `k` the viewer may add earmarks to: the
/// personal accounts disclosed to them in full.
pub open spec fn earmarkable(accounts: Seq<AccountAccess>, k: nat) -> Seq<u64>
    decreases k,
{
    if k == 0 || k > accounts.len() {
        Seq::empty()
    } else {
        let prev = earmarkable(accounts, (k - 1) as nat);
        let a = accounts[k - 1];
        if !a.is_company_account && a.disclosure == Disclosure::Full { prev.push(a.id) } else { prev }
    }
}

/// Earmarks need a personal account the viewer sees in full.
pub fn editable_accounts(accounts: &Vec<AccountAccess>) -> (r: Vec<u64>)
    ensures
        r@ == earmarkable(accounts@, accounts@.len()),
{
    let mut out: Vec<u64> = Vec::new();
    let n = accounts.len();
    for i in 0..n
        invariant
            n == accounts@.len(),
            out@ == earmarkable(accounts@, i as nat),
    {
        let a = accounts[i];
        if !a.is_company_account && a.disclosure == Disclosure::Full {
            out.push(a.id);
        }
    }
    out
}

/// Every account offered for an earmark is a personal account the viewer
/// sees in full.
pub proof fn earmarks_only_on_personal_accounts(accounts: Seq<AccountAccess>, k: nat)
    requires
        k <= accounts.len(),
    ensures
        forall|j: int| 0 <= j < earmarkable(accounts, k).len() ==> exists|i: int|
            0 <= i < k && (#[trigger] accounts[i]).id == #[trigger] earmarkable(accounts, k)[j] && !accounts[i].is_company_account
                && accounts[i].disclosure == Disclosure::Full,
    decreases k,
{
    if k > 0 {
        earmarks_only_on_personal_accounts(accounts, (k - 1) as nat);
        let prev = earmarkable(accounts, (k - 1) as nat);
        assert forall|j: int| 0 <= j < earmarkable(accounts, k).len() implies exists|i: int|
            0 <= i < k && (#[trigger] accounts[i]).id == #[trigger] earmarkable(accounts, k)[j] && !accounts[i].is_company_account
                && accounts[i].disclosure == Disclosure::Full by {
            if j < prev.len() {
                assert(earmarkable(accounts, k)[j] == prev[j]);
                let i = choose|i: int| 0 <= i < k - 1 && (#[trigger] accounts[i]).id == prev[j] && !accounts[i].is_company_account
                    && accounts[i].disclosure == Disclosure::Full;
                assert(accounts[i].id == earmarkable(accounts, k)[j]);
            } else {
                assert(accounts[k - 1].id == earmarkable(accounts, k)[j]);
            }
        }
    }
}

/// What the engine reports of a boundary's liquidity that the screen reads.
#[derive(Clone, Debug)]
pub struct BoundaryReport {
    /// The boundary reported on.
    pub boundary: Boundary,
    /// Headroom over the hard floors, signed, in minor units.
    pub headroom: i64,
    /// The accounts inside the boundary.
    pub accounts: Vec<u64>,
}

/// Everything the screen shows for one boundary, apart from the figures and
/// their chains, which the engine explains.
#[derive(Clone, Debug)]
pub struct LiquidityModel {
    pub boundary: Boundary,
    pub boundaries: Vec<Boundary>,
    pub spendable_display: u64,
    pub deficit: u64,
    /// The horizon the runway is analysed through, as a day number.
    pub horizon: i32,
    /// Whether the runway of the household path is analysed (household only).
    pub runway: bool,
    /// Whether the minimum immediate injection is shown (household only).
    pub minimum_injection: bool,
    /// Reservations on the boundary's accounts, active and released.
    pub reservations: Vec<u64>,
}

impl LiquidityModel {
    /// The boundaries and the boundary shown for a request.
    pub fn scope(people: &Vec<u64>, companies: &Vec<CompanyAccess>, requested: Boundary) -> (r: (Vec<Boundary>, Boundary))
        ensures
            r.0@ == boundary_list(people@, companies@),
            r.1 == resolved_boundary(r.0@, requested),
    {
        let boundaries = boundary_choices(people, companies);
        let boundary = resolve_boundary(&boundaries, requested);
        (boundaries, boundary)
    }

    /// The model of a boundary from the engine's report on it, the report
    /// being on the boundary shown.
    pub fn compute(
        people: &Vec<u64>,
        companies: &Vec<CompanyAccess>,
        requested: Boundary,
        report: &BoundaryReport,
        reservations: &Vec<ReservationAccess>,
        horizon: i32,
    ) -> (m: LiquidityModel)
        requires
            report.boundary == resolved_boundary(boundary_list(people@, companies@), requested),
        ensures
            m.boundaries@ == boundary_list(people@, companies@),
            m.boundary == report.boundary,
            m.boundary == resolved_boundary(m.boundaries@, requested),
            m.spendable_display == spendable(report.headroom as int),
            m.deficit == deficit(report.headroom as int),
            m.horizon == horizon,
            m.runway == (m.boundary == Boundary::Household),
            m.minimum_injection == (m.boundary == Boundary::Household),
            m.reservations@ == listed_reservations(reservations@, report.accounts@, reservations@.len()),
    {
        let (boundaries, boundary) = Self::scope(people, companies, requested);
        let (spendable_display, deficit) = spendable_and_deficit(report.headroom);
        let reservations = boundary_reservations(reservations, &report.accounts);
        let household = boundary == Boundary::Household;
        LiquidityModel {
            boundary,
            boundaries,
            spendable_display,
            deficit,
            horizon,
            runway: household,
            minimum_injection: household,
            reservations,
        }
    }
}

/// The position, among a boundary's figures, of the one its constraint is
/// about: the fourth for a person (whose first figure is the attributed
/// share), the third otherwise, and never past the last figure.
pub open spec fn leading_figure(boundary: Boundary, figures: nat) -> nat {
    let wanted: nat = match boundary {
        Boundary::Person(_) => 3,
        _ => 2,
    };
    let last: nat = if figures == 0 { 0 } else { (figures - 1) as nat };
    if wanted < last { wanted } else { last }
}

pub fn leading_figure_index(boundary: Boundary, figures: usize) -> (r: usize)
    ensures
        r == leading_figure(boundary, figures as nat),
{
    let wanted: usize = match boundary {
        Boundary::Person(_) => 3,
        _ => 2,
    };
    let last = if figures == 0 { 0 } else { figures - 1 };
    if wanted < last { wanted } else { last }
}

/// The figures of the leading band, in order, and of the band under it. The
/// leading figure opens the first band; the others follow it while the band
/// holds fewer than three, or all of them when there are at most four.
pub open spec fn figure_bands(figures: nat, leading: nat) -> (Seq<nat>, Seq<nat>)
    decreases figures,
{
    if figures == 0 {
        (Seq::empty(), Seq::empty())
    } else {
        band_step(figures, leading, (figures - 1) as nat)
    }
}

/// The bands after placing the figures `0..=k` that are not the leading one.
pub open spec fn band_step(figures: nat, leading: nat, k: nat) -> (Seq<nat>, Seq<nat>)
    decreases k + 1,
{
    let before = if k == 0 {
        (if leading < figures { seq![leading] } else { Seq::empty() }, Seq::<nat>::empty())
    } else {
        band_step(figures, leading, (k - 1) as nat)
    };
    if k == leading {
        before
    } else if figures <= 4 || before.0.len() < 3 {
        (before.0.push(k), before.1)
    } else {
        (before.0, before.1.push(k))
    }
}

/// The arrangement of a boundary's figures into the leading band and the
/// band under it (positions into the figure list).
pub fn arrange_figures(figures: usize, leading: usize) -> (r: (Vec<usize>, Vec<usize>))
    ensures
        r.0@.map_values(|i: usize| i as nat) == figure_bands(figures as nat, leading as nat).0,
        r.1@.map_values(|i: usize| i as nat) == figure_bands(figures as nat, leading as nat).1,
{
    if figures == 0 {
        let lead: Vec<usize> = Vec::new();
        let rest: Vec<usize> = Vec::new();
        proof {
            assert(lead@.map_values(|i: usize| i as nat) =~= Seq::<nat>::empty());
            assert(rest@.map_values(|i: usize| i as nat) =~= Seq::<nat>::empty());
        }
        return (lead, rest);
    }
    let mut lead: Vec<usize> = Vec::new();
    let mut rest: Vec<usize> = Vec::new();
    if leading < figures {
        lead.push(leading);
    }
    let one_band = figures <= 4;
    let mut index: usize = 0;
    while index < figures
        invariant
            index <= figures,
            one_band == (figures <= 4),
            index == 0 ==> lead@.map_values(|i: usize| i as nat) == (if leading < figures { seq![leading as nat] } else { Seq::<nat>::empty() }),
            index == 0 ==> rest@.len() == 0,
            index > 0 ==> lead@.map_values(|i: usize| i as nat) == band_step(figures as nat, leading as nat, (index - 1) as nat).0,
            index > 0 ==> rest@.map_values(|i: usize| i as nat) == band_step(figures as nat, leading as nat, (index - 1) as nat).1,
        decreases figures - index,
    {
        let ghost lead_before = lead@;
        let ghost rest_before = rest@;
        if index != leading {
            if one_band || lead.len() < 3 {
                lead.push(index);
                proof {
                    assert(lead@.map_values(|i: usize| i as nat) =~= lead_before.map_values(|i: usize| i as nat).push(index as nat));
                }
            } else {
                rest.push(index);
                proof {
                    assert(rest@.map_values(|i: usize| i as nat) =~= rest_before.map_values(|i: usize| i as nat).push(index as nat));
                }
            }
        }
        proof {
            if index == 0 {
                assert(rest_before.map_values(|i: usize| i as nat) =~= Seq::<nat>::empty());
            }
        }
        index = index + 1;
    }
    (lead, rest)
}

// ----- the screen's sentences --------------------------------------------------

/// The title over a boundary's figures.
pub open spec fn figures_title(boundary_label: Seq<char>) -> Seq<char> {
    boundary_label + " — money definitions"@
}

pub fn figures_title_text(boundary_label: &str) -> (r: String)
    ensures
        r@ == figures_title(boundary_label@),
{
    let mut s = String::new();
    push_str(&mut s, boundary_label);
    push_str(&mut s, " — money definitions");
    proof { assert(s@ =~= figures_title(boundary_label@)); }
    s
}

/// Under the spendable figure: the deficit, written, when there is one; it is
/// reported beside the floored figure, never folded into it.
pub open spec fn deficit_note(has_deficit: bool, deficit: Seq<char>) -> Seq<char> {
    if has_deficit {
        "Deficit "@ + deficit + " reported separately — never hidden by the zero floor"@
    } else {
        "No deficit against the hard floors"@
    }
}

pub fn deficit_note_text(has_deficit: bool, deficit: &str) -> (r: String)
    ensures
        r@ == deficit_note(has_deficit, deficit@),
{
    if has_deficit {
        let mut s = String::new();
        push_str(&mut s, "Deficit ");
        push_str(&mut s, deficit);
        push_str(&mut s, " reported separately — never hidden by the zero floor");
        proof { assert(s@ =~= deficit_note(has_deficit, deficit@)); }
        s
    } else {
        String::from_str("No deficit against the hard floors")
    }
}

/// The title of the runway against the hard floors.
pub open spec fn runway_title(horizon: i32) -> Seq<char> {
    "Runway of the household liquid-cash path against hard floors through "@ + calendar_text(horizon, DatePattern::DayMonthYear)
}

pub fn runway_title_text(horizon: i32) -> (r: String)
    requires
        valid_day(horizon as int),
    ensures
        r@ == runway_title(horizon),
{
    let mut s = String::new();
    push_str(&mut s, "Runway of the household liquid-cash path against hard floors through ");
    let d = date_text(horizon, DatePattern::DayMonthYear);
    push_str(&mut s, d.as_str());
    proof { assert(s@ =~= runway_title(horizon)); }
    s
}

/// The runway's integrated shortfall: `1200 currency-days`.
pub open spec fn shortfall_fact(currency_days: nat) -> Seq<char> {
    decimal(currency_days) + " currency-days"@
}

pub fn shortfall_fact_text(currency_days: u64) -> (r: String)
    ensures
        r@ == shortfall_fact(currency_days as nat),
{
    let mut s = String::new();
    push_decimal(&mut s, currency_days);
    push_str(&mut s, " currency-days");
    proof { assert(s@ =~= shortfall_fact(currency_days as nat)); }
    s
}

} // verus!
