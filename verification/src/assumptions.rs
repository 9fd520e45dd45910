//! The assumptions register: which conditions a viewer sees, the filters
//! over them, the order that puts what needs attention first, and the
//! readings of sensitivity breakpoints.

use vstd::prelude::*;
use crate::text::{DatePattern, calendar_text, date_text, decimal, join_texts, joined, push_decimal, push_str, texts, valid_day};

verus! {

/// How current an assumption's acceptance is on the reconciliation date.
#[derive(Clone, Copy, PartialEq, Eq, Debug, Structural)]
pub enum Freshness {
    Fresh,
    Stale,
    NotAccepted,
    Expired,
}

/// Rows needing attention come first: expired, then not accepted, then
/// stale, then fresh.
pub open spec fn attention(f: Freshness) -> nat {
    match f {
        Freshness::Expired => 0,
        Freshness::NotAccepted => 1,
        Freshness::Stale => 2,
        Freshness::Fresh => 3,
    }
}

pub fn attention_rank(f: Freshness) -> (r: u8)
    ensures
        r as nat == attention(f),
{
    match f {
        Freshness::Expired => 0,
        Freshness::NotAccepted => 1,
        Freshness::Stale => 2,
        Freshness::Fresh => 3,
    }
}

/// One recorded assumption, with the freshness the engine judged for it.
#[derive(Clone, Debug)]
pub struct AssumptionInput {
    pub id: u64,
    /// The person it is private to; none when the household shares it.
    pub private_to: Option<u64>,
    /// The series it applies to; none means every forecast.
    pub applies_to: Vec<u64>,
    pub freshness: Freshness,
}

/// The register's filters: the `Applies to` row (0 all, 1 the forecast on
/// show, 2 onwards one series each) and the `Freshness` row (0 all, then
/// fresh, stale, not accepted, expired).
#[derive(Clone, Debug)]
pub struct AssumptionFilter {
    pub applies_row: usize,
    pub freshness_row: usize,
    /// The assumptions the forecast on show used.
    pub run_ids: Vec<u64>,
    /// The series offered from the third row of `Applies to` on.
    pub applies_series: Vec<u64>,
}

pub open spec fn visible_to(a: AssumptionInput, viewer: u64) -> bool {
    a.private_to is None || a.private_to == Some(viewer)
}

pub open spec fn applies_ok(a: AssumptionInput, f: AssumptionFilter) -> bool {
    if f.applies_row == 0 {
        true
    } else if f.applies_row == 1 {
        f.run_ids@.contains(a.id)
    } else {
        f.applies_row - 2 < f.applies_series@.len() && a.applies_to@.contains(f.applies_series@[f.applies_row - 2])
    }
}

pub open spec fn freshness_ok(fr: Freshness, row: nat) -> bool {
    if row == 0 {
        true
    } else if row == 1 {
        fr == Freshness::Fresh
    } else if row == 2 {
        fr == Freshness::Stale
    } else if row == 3 {
        fr == Freshness::NotAccepted
    } else {
        fr == Freshness::Expired
    }
}

/// The positions of the first `k` assumptions the register lists, in the
/// household's order.
pub open spec fn listed(as_: Seq<AssumptionInput>, viewer: u64, f: AssumptionFilter, k: nat) -> Seq<int>
    decreases k,
{
    if k == 0 || k > as_.len() {
        Seq::empty()
    } else {
        let prev = listed(as_, viewer, f, (k - 1) as nat);
        let a = as_[k - 1];
        if visible_to(a, viewer) && applies_ok(a, f) && freshness_ok(a.freshness, f.freshness_row as nat) {
            prev.push(k - 1)
        } else {
            prev
        }
    }
}

/// How many of the first `k` assumptions the viewer may see.
pub open spec fn visible_count(as_: Seq<AssumptionInput>, viewer: u64, k: nat) -> nat
    decreases k,
{
    if k == 0 || k > as_.len() {
        0
    } else {
        visible_count(as_, viewer, (k - 1) as nat) + if visible_to(as_[k - 1], viewer) { 1nat } else { 0nat }
    }
}

/// The first `k` of `order` whose assumption has the given attention rank.
pub open spec fn ranked(as_: Seq<AssumptionInput>, order: Seq<int>, rank: nat, k: nat) -> Seq<int>
    decreases k,
{
    if k == 0 || k > order.len() {
        Seq::empty()
    } else {
        let prev = ranked(as_, order, rank, (k - 1) as nat);
        if attention(as_[order[k - 1]].freshness) == rank { prev.push(order[k - 1]) } else { prev }
    }
}

/// The register's order: the listed assumptions sorted by attention, those
/// of equal attention kept in the household's order.
pub open spec fn register_order(as_: Seq<AssumptionInput>, listed: Seq<int>) -> Seq<int> {
    ranked(as_, listed, 0, listed.len()) + ranked(as_, listed, 1, listed.len())
        + ranked(as_, listed, 2, listed.len()) + ranked(as_, listed, 3, listed.len())
}

/// What the register shows.
#[derive(Clone, Debug)]
pub struct AssumptionRegister {
    /// Positions of the listed assumptions, in display order.
    pub rows: Vec<usize>,
    /// How many the viewer may see before the filters.
    pub total_visible: usize,
    /// How many are private to other people.
    pub hidden: usize,
    /// Whether a filter is set.
    pub filtered: bool,
    /// The total the count line sets the listed rows against: the listed
    /// rows again when a filter is set, otherwise every assumption of the
    /// household, private ones included.
    pub count_total: usize,
}

fn contains_u64(ids: &Vec<u64>, id: u64) -> (r: bool)
    ensures
        r == ids@.contains(id),
{
    let n = ids.len();
    for i in 0..n
        invariant
            n == ids@.len(),
            forall|j: int| 0 <= j < i ==> ids@[j] != id,
    {
        if ids[i] == id {
            proof { assert(ids@.contains(id)); }
            return true;
        }
    }
    false
}

fn passes(a: &AssumptionInput, viewer: u64, f: &AssumptionFilter) -> (r: bool)
    ensures
        r == (visible_to(*a, viewer) && applies_ok(*a, *f) && freshness_ok(a.freshness, f.freshness_row as nat)),
{
    let visible = match a.private_to {
        None => true,
        Some(p) => p == viewer,
    };
    let applies = if f.applies_row == 0 {
        true
    } else if f.applies_row == 1 {
        contains_u64(&f.run_ids, a.id)
    } else if f.applies_row - 2 < f.applies_series.len() {
        contains_u64(&a.applies_to, f.applies_series[f.applies_row - 2])
    } else {
        false
    };
    let fresh = if f.freshness_row == 0 {
        true
    } else if f.freshness_row == 1 {
        a.freshness == Freshness::Fresh
    } else if f.freshness_row == 2 {
        a.freshness == Freshness::Stale
    } else if f.freshness_row == 3 {
        a.freshness == Freshness::NotAccepted
    } else {
        a.freshness == Freshness::Expired
    };
    visible && applies && fresh
}

fn append_ranked(as_: &Vec<AssumptionInput>, order: &Vec<usize>, rank: u8, out: &mut Vec<usize>)
    requires
        forall|j: int| 0 <= j < order@.len() ==> order@[j] < as_@.len(),
        rank <= 3,
    ensures
        final(out)@.map_values(|i: usize| i as int) == old(out)@.map_values(|i: usize| i as int)
            + ranked(as_@, order@.map_values(|i: usize| i as int), rank as nat, order@.len()),
{
    let n = order.len();
    let ghost ord = order@.map_values(|i: usize| i as int);
    let ghost start = out@.map_values(|i: usize| i as int);
    for k in 0..n
        invariant
            n == order@.len(),
            ord == order@.map_values(|i: usize| i as int),
            forall|j: int| 0 <= j < order@.len() ==> order@[j] < as_@.len(),
            out@.map_values(|i: usize| i as int) == start + ranked(as_@, ord, rank as nat, k as nat),
    {
        let idx = order[k];
        if attention_rank(as_[idx].freshness) == rank {
            let ghost before = out@;
            out.push(idx);
            proof {
                assert(out@.map_values(|i: usize| i as int) =~= before.map_values(|i: usize| i as int).push(idx as int));
                assert(ord[k as int] == idx as int);
                assert(start + ranked(as_@, ord, rank as nat, (k + 1) as nat)
                    =~= (start + ranked(as_@, ord, rank as nat, k as nat)).push(idx as int));
            }
        } else {
            proof { assert(ord[k as int] == idx as int); }
        }
    }
}

impl AssumptionRegister {
    /// The register for one viewer under the filters.
    pub fn compute(assumptions: &Vec<AssumptionInput>, viewer: u64, filter: &AssumptionFilter) -> (r: AssumptionRegister)
        ensures
            r.rows@.map_values(|i: usize| i as int) == register_order(assumptions@, listed(assumptions@, viewer, *filter, assumptions@.len())),
            r.total_visible == visible_count(assumptions@, viewer, assumptions@.len()),
            r.hidden + r.total_visible == assumptions@.len(),
            r.filtered == (filter.applies_row > 0 || filter.freshness_row > 0),
            r.count_total == if r.filtered { r.rows@.len() } else { assumptions@.len() },
    {
        let n = assumptions.len();
        let mut order: Vec<usize> = Vec::new();
        let mut visible: usize = 0;
        for i in 0..n
            invariant
                n == assumptions@.len(),
                order@.map_values(|x: usize| x as int) == listed(assumptions@, viewer, *filter, i as nat),
                forall|j: int| 0 <= j < order@.len() ==> order@[j] < i,
                visible == visible_count(assumptions@, viewer, i as nat),
                visible <= i,
        {
            let a = &assumptions[i];
            let is_visible = match a.private_to {
                None => true,
                Some(p) => p == viewer,
            };
            if is_visible {
                visible = visible + 1;
            }
            if passes(a, viewer, filter) {
                let ghost before = order@;
                order.push(i);
                proof {
                    assert(order@.map_values(|x: usize| x as int) =~= before.map_values(|x: usize| x as int).push(i as int));
                }
            }
        }
        let mut rows: Vec<usize> = Vec::new();
        proof { assert(rows@.map_values(|x: usize| x as int) =~= Seq::<int>::empty()); }
        append_ranked(assumptions, &order, 0, &mut rows);
        append_ranked(assumptions, &order, 1, &mut rows);
        append_ranked(assumptions, &order, 2, &mut rows);
        append_ranked(assumptions, &order, 3, &mut rows);
        proof {
            let l = listed(assumptions@, viewer, *filter, assumptions@.len());
            assert(Seq::<int>::empty() + ranked(assumptions@, l, 0, l.len()) =~= ranked(assumptions@, l, 0, l.len()));
        }
        let filtered = filter.applies_row > 0 || filter.freshness_row > 0;
        let count_total = if filtered { rows.len() } else { n };
        AssumptionRegister { rows, total_visible: visible, hidden: n - visible, filtered, count_total }
    }
}

/// Every element of a ranked part has that rank.
pub proof fn ranked_has_rank(as_: Seq<AssumptionInput>, order: Seq<int>, rank: nat, k: nat)
    ensures
        forall|j: int| 0 <= j < ranked(as_, order, rank, k).len()
            ==> attention(as_[#[trigger] ranked(as_, order, rank, k)[j]].freshness) == rank,
    decreases k,
{
    if k > 0 && k <= order.len() {
        ranked_has_rank(as_, order, rank, (k - 1) as nat);
    }
}

/// The four ranked parts together hold as many positions as the listed ones.
pub proof fn ranked_parts_cover(as_: Seq<AssumptionInput>, order: Seq<int>, k: nat)
    requires
        k <= order.len(),
    ensures
        ranked(as_, order, 0, k).len() + ranked(as_, order, 1, k).len() + ranked(as_, order, 2, k).len()
            + ranked(as_, order, 3, k).len() == k,
    decreases k,
{
    if k > 0 {
        ranked_parts_cover(as_, order, (k - 1) as nat);
    }
}

/// The register lists exactly the filtered assumptions, and in order of
/// attention: a row needing more attention never follows one needing less.
pub proof fn register_order_is_sorted(as_: Seq<AssumptionInput>, listed: Seq<int>)
    ensures
        register_order(as_, listed).len() == listed.len(),
        forall|i: int, j: int| 0 <= i < j < register_order(as_, listed).len()
            ==> attention(as_[register_order(as_, listed)[i]].freshness)
                <= attention(as_[register_order(as_, listed)[j]].freshness),
{
    let n = listed.len();
    let p0 = ranked(as_, listed, 0, n);
    let p1 = ranked(as_, listed, 1, n);
    let p2 = ranked(as_, listed, 2, n);
    let p3 = ranked(as_, listed, 3, n);
    ranked_parts_cover(as_, listed, n);
    ranked_has_rank(as_, listed, 0, n);
    ranked_has_rank(as_, listed, 1, n);
    ranked_has_rank(as_, listed, 2, n);
    ranked_has_rank(as_, listed, 3, n);
    let o = register_order(as_, listed);
    assert forall|i: int| 0 <= i < o.len() implies attention(as_[o[i]].freshness) == (
        if i < p0.len() { 0nat } else if i < p0.len() + p1.len() { 1nat } else if i < p0.len() + p1.len() + p2.len() { 2nat } else { 3nat }
    ) by {
        if i < p0.len() {
            assert(o[i] == p0[i]);
        } else if i < p0.len() + p1.len() {
            assert(o[i] == p1[i - p0.len()]);
        } else if i < p0.len() + p1.len() + p2.len() {
            assert(o[i] == p2[i - p0.len() - p1.len()]);
        } else {
            assert(o[i] == p3[i - p0.len() - p1.len() - p2.len()]);
        }
    }
}

/// With both filters on `All` the register lists every assumption the viewer
/// may see: clearing the filters hides nothing but other people's private
/// assumptions.
pub proof fn cleared_filters_list_every_visible(as_: Seq<AssumptionInput>, viewer: u64, f: AssumptionFilter, k: nat)
    requires
        f.applies_row == 0,
        f.freshness_row == 0,
        k <= as_.len(),
    ensures
        listed(as_, viewer, f, k).len() == visible_count(as_, viewer, k),
        forall|i: int| 0 <= i < listed(as_, viewer, f, k).len() ==> visible_to(as_[#[trigger] listed(as_, viewer, f, k)[i]], viewer),
    decreases k,
{
    if k > 0 {
        cleared_filters_list_every_visible(as_, viewer, f, (k - 1) as nat);
    }
}

/// The listed positions among the first `k` are below `k` and pass every
/// filter; every one below `k` that passes them is listed.
proof fn listed_members(as_: Seq<AssumptionInput>, viewer: u64, f: AssumptionFilter, k: nat)
    requires
        k <= as_.len(),
    ensures
        forall|i: int| 0 <= i < listed(as_, viewer, f, k).len() ==> {
            let x = #[trigger] listed(as_, viewer, f, k)[i];
            &&& 0 <= x < k
            &&& visible_to(as_[x], viewer) && applies_ok(as_[x], f) && freshness_ok(as_[x].freshness, f.freshness_row as nat)
        },
        forall|j: int| 0 <= j < k && visible_to(#[trigger] as_[j], viewer) && applies_ok(as_[j], f)
            && freshness_ok(as_[j].freshness, f.freshness_row as nat) ==> listed(as_, viewer, f, k).contains(j),
    decreases k,
{
    if k > 0 {
        listed_members(as_, viewer, f, (k - 1) as nat);
        let prev = listed(as_, viewer, f, (k - 1) as nat);
        let cur = listed(as_, viewer, f, k);
        assert forall|j: int| 0 <= j < k && visible_to(#[trigger] as_[j], viewer) && applies_ok(as_[j], f)
            && freshness_ok(as_[j].freshness, f.freshness_row as nat) implies cur.contains(j) by {
            if j < k - 1 {
                let m = choose|m: int| 0 <= m < prev.len() && prev[m] == j;
                assert(cur[m] == j);
            } else {
                assert(cur[cur.len() - 1] == j);
            }
        }
    }
}

/// The members of a ranked part come from the order, and every position of
/// the order with that rank is among them.
proof fn ranked_members(as_: Seq<AssumptionInput>, order: Seq<int>, rank: nat, k: nat)
    requires
        k <= order.len(),
    ensures
        forall|i: int| 0 <= i < ranked(as_, order, rank, k).len() ==> order.contains(#[trigger] ranked(as_, order, rank, k)[i]),
        forall|j: int| 0 <= j < k && attention(as_[#[trigger] order[j]].freshness) == rank ==> ranked(as_, order, rank, k).contains(order[j]),
    decreases k,
{
    if k > 0 {
        ranked_members(as_, order, rank, (k - 1) as nat);
        let prev = ranked(as_, order, rank, (k - 1) as nat);
        let cur = ranked(as_, order, rank, k);
        assert forall|i: int| 0 <= i < cur.len() implies order.contains(#[trigger] cur[i]) by {
            if i < prev.len() {
                assert(cur[i] == prev[i]);
            } else {
                assert(cur[i] == order[k - 1]);
            }
        }
        assert forall|j: int| 0 <= j < k && attention(as_[#[trigger] order[j]].freshness) == rank implies cur.contains(order[j]) by {
            if j < k - 1 {
                let m = choose|m: int| 0 <= m < prev.len() && prev[m] == order[j];
                assert(cur[m] == order[j]);
            } else {
                assert(cur[cur.len() - 1] == order[j]);
            }
        }
    }
}

/// The register lists exactly the assumptions that pass its filters: each
/// row is an assumption shared or private to the viewer, which applies to
/// what the `Applies to` row names (any, the ones the run used, or the
/// chosen series) and has the freshness the `Freshness` row names (any,
/// fresh, stale, not accepted, expired); and every such assumption is a row.
pub proof fn register_lists_exactly_the_filtered(as_: Seq<AssumptionInput>, viewer: u64, f: AssumptionFilter)
    requires
        f.freshness_row <= 4,
    ensures
        forall|i: int| 0 <= i < register_order(as_, listed(as_, viewer, f, as_.len())).len() ==> {
            let x = #[trigger] register_order(as_, listed(as_, viewer, f, as_.len()))[i];
            let a = as_[x];
            &&& 0 <= x < as_.len()
            &&& a.private_to is None || a.private_to == Some(viewer)
            &&& f.applies_row == 1 ==> f.run_ids@.contains(a.id)
            &&& f.applies_row >= 2 ==> f.applies_row - 2 < f.applies_series@.len() && a.applies_to@.contains(f.applies_series@[f.applies_row - 2])
            &&& f.freshness_row == 1 ==> a.freshness == Freshness::Fresh
            &&& f.freshness_row == 2 ==> a.freshness == Freshness::Stale
            &&& f.freshness_row == 3 ==> a.freshness == Freshness::NotAccepted
            &&& f.freshness_row == 4 ==> a.freshness == Freshness::Expired
        },
        forall|j: int| 0 <= j < as_.len() && {
            let a = #[trigger] as_[j];
            &&& a.private_to is None || a.private_to == Some(viewer)
            &&& f.applies_row == 1 ==> f.run_ids@.contains(a.id)
            &&& f.applies_row >= 2 ==> f.applies_row - 2 < f.applies_series@.len() && a.applies_to@.contains(f.applies_series@[f.applies_row - 2])
            &&& f.freshness_row == 1 ==> a.freshness == Freshness::Fresh
            &&& f.freshness_row == 2 ==> a.freshness == Freshness::Stale
            &&& f.freshness_row == 3 ==> a.freshness == Freshness::NotAccepted
            &&& f.freshness_row == 4 ==> a.freshness == Freshness::Expired
        } ==> register_order(as_, listed(as_, viewer, f, as_.len())).contains(j),
{
    let n = as_.len();
    let l = listed(as_, viewer, f, n);
    let o = register_order(as_, l);
    listed_members(as_, viewer, f, n);
    ranked_members(as_, l, 0, l.len());
    ranked_members(as_, l, 1, l.len());
    ranked_members(as_, l, 2, l.len());
    ranked_members(as_, l, 3, l.len());
    let p0 = ranked(as_, l, 0, l.len());
    let p1 = ranked(as_, l, 1, l.len());
    let p2 = ranked(as_, l, 2, l.len());
    let p3 = ranked(as_, l, 3, l.len());
    assert forall|i: int| 0 <= i < o.len() implies l.contains(#[trigger] o[i]) by {
        if i < p0.len() {
            assert(o[i] == p0[i]);
        } else if i < p0.len() + p1.len() {
            assert(o[i] == p1[i - p0.len()]);
        } else if i < p0.len() + p1.len() + p2.len() {
            assert(o[i] == p2[i - p0.len() - p1.len()]);
        } else {
            assert(o[i] == p3[i - p0.len() - p1.len() - p2.len()]);
        }
    }
    assert forall|i: int| 0 <= i < o.len() implies {
        let x = #[trigger] o[i];
        let a = as_[x];
        &&& 0 <= x < as_.len()
        &&& a.private_to is None || a.private_to == Some(viewer)
        &&& f.applies_row == 1 ==> f.run_ids@.contains(a.id)
        &&& f.applies_row >= 2 ==> f.applies_row - 2 < f.applies_series@.len() && a.applies_to@.contains(f.applies_series@[f.applies_row - 2])
        &&& f.freshness_row == 1 ==> a.freshness == Freshness::Fresh
        &&& f.freshness_row == 2 ==> a.freshness == Freshness::Stale
        &&& f.freshness_row == 3 ==> a.freshness == Freshness::NotAccepted
        &&& f.freshness_row == 4 ==> a.freshness == Freshness::Expired
    } by {
        assert(l.contains(o[i]));
        let m = choose|m: int| 0 <= m < l.len() && l[m] == o[i];
        assert(l[m] == o[i]);
    }
    assert forall|j: int| 0 <= j < as_.len() && {
        let a = #[trigger] as_[j];
        &&& a.private_to is None || a.private_to == Some(viewer)
        &&& f.applies_row == 1 ==> f.run_ids@.contains(a.id)
        &&& f.applies_row >= 2 ==> f.applies_row - 2 < f.applies_series@.len() && a.applies_to@.contains(f.applies_series@[f.applies_row - 2])
        &&& f.freshness_row == 1 ==> a.freshness == Freshness::Fresh
        &&& f.freshness_row == 2 ==> a.freshness == Freshness::Stale
        &&& f.freshness_row == 3 ==> a.freshness == Freshness::NotAccepted
        &&& f.freshness_row == 4 ==> a.freshness == Freshness::Expired
    } implies o.contains(j) by {
        assert(visible_to(as_[j], viewer) && applies_ok(as_[j], f) && freshness_ok(as_[j].freshness, f.freshness_row as nat));
        assert(l.contains(j));
        let m = choose|m: int| 0 <= m < l.len() && l[m] == j;
        let r = attention(as_[l[m]].freshness);
        if r == 0 {
            let q = choose|q: int| 0 <= q < p0.len() && p0[q] == j;
            assert(o[q] == j);
        } else if r == 1 {
            let q = choose|q: int| 0 <= q < p1.len() && p1[q] == j;
            assert(o[p0.len() + q] == j);
        } else if r == 2 {
            let q = choose|q: int| 0 <= q < p2.len() && p2[q] == j;
            assert(o[p0.len() + p1.len() + q] == j);
        } else {
            let q = choose|q: int| 0 <= q < p3.len() && p3[q] == j;
            assert(o[p0.len() + p1.len() + p2.len() + q] == j);
        }
    }
}

/// Opening a row that is open closes it; opening another switches to it.
pub open spec fn toggled(open: Option<u64>, id: u64) -> Option<u64> {
    if open == Some(id) { None } else { Some(id) }
}

/// Opening the same row twice leaves the register as it was, when that row
/// or no row was open before.
pub proof fn toggle_assumption_twice(open: Option<u64>, id: u64)
    requires
        open is None || open == Some(id),
    ensures
        toggled(toggled(open, id), id) == open,
{
}

/// The register's and the sensitivity panel's state.
#[derive(Clone, Copy, PartialEq, Eq, Debug, Structural)]
pub struct AssumptionsView {
    /// The assumption whose row is open.
    pub expanded: Option<u64>,
    /// The rows chosen in the `Applies to` and `Freshness` filters; zero is `All`.
    pub applies_row: usize,
    pub freshness_row: usize,
    /// Whether the sensitivity result on show is behind its chosen scope.
    pub sensitivity_pending: bool,
    /// The sensitivity breakpoint whose detail is open.
    pub sensitivity_expanded: Option<usize>,
}

impl AssumptionsView {
    /// Whether the sensitivity result on show is behind its chosen scope.
    pub fn sensitivity_pending(&self) -> (r: bool)
        ensures
            r == self.sensitivity_pending,
    {
        self.sensitivity_pending
    }

    /// Opens an assumption's row, or closes it when it is the one open.
    pub fn toggle_assumption(&mut self, id: u64)
        ensures
            *final(self) == (AssumptionsView { expanded: toggled(old(self).expanded, id), ..*old(self) }),
    {
        self.expanded = if self.expanded == Some(id) { None } else { Some(id) };
    }

    /// `Clear filters`: both filters back on `All`.
    pub fn clear_assumption_filters(&mut self)
        ensures
            *final(self) == (AssumptionsView { applies_row: 0, freshness_row: 0, ..*old(self) }),
    {
        self.applies_row = 0;
        self.freshness_row = 0;
    }

    /// Running the sensitivity for the chosen scope: the result is current
    /// and no breakpoint is open.
    pub fn run_sensitivity(&mut self)
        ensures
            *final(self) == (AssumptionsView {
                sensitivity_pending: false,
                sensitivity_expanded: None,
                ..*old(self)
            }),
    {
        self.sensitivity_pending = false;
        self.sensitivity_expanded = None;
    }
}

/// The confirmation a derivation asks for: what the assumption says, where
/// its value comes from now and after, and that its acceptance is cleared.
pub open spec fn derivation_lines(text: Seq<char>, source: Seq<char>, amount: Seq<char>, derivation: Seq<char>) -> Seq<Seq<char>> {
    seq![
        "Assumption: "@ + text,
        "Now: "@ + source,
        "After: "@ + amount + " — "@ + derivation,
        "Its acceptance is cleared; review and accept it in the register."@,
    ]
}

fn prefixed(prefix: &str, t: &str) -> (r: String)
    ensures
        r@ == prefix@ + t@,
{
    let mut s = String::new();
    push_str(&mut s, prefix);
    push_str(&mut s, t);
    proof {
        assert(s@ =~= prefix@ + t@);
    }
    s
}

/// The lines of the confirmation before a derivation is applied, when the
/// target assumption and a derived value both exist; none otherwise.
/// `target` is the assumption's text and its current source, `derived` the
/// derived amount and how it was derived, each as written out.
pub fn confirm_apply_derivation(target: Option<(&str, &str)>, derived: Option<(&str, &str)>) -> (r: Option<Vec<String>>)
    ensures
        match (target, derived) {
            (Some((text, source)), Some((amount, derivation))) => r matches Some(lines)
                && lines@.map_values(|t: String| t@) == derivation_lines(text@, source@, amount@, derivation@),
            _ => r is None,
        },
{
    let (text, source) = match target {
        Some(t) => t,
        None => return None,
    };
    let (amount, derivation) = match derived {
        Some(d) => d,
        None => return None,
    };
    let mut lines: Vec<String> = Vec::new();
    lines.push(prefixed("Assumption: ", text));
    lines.push(prefixed("Now: ", source));
    let mut after = prefixed("After: ", amount);
    push_str(&mut after, " — ");
    push_str(&mut after, derivation);
    lines.push(after);
    lines.push("Its acceptance is cleared; review and accept it in the register.".to_string());
    proof {
        assert(lines@.map_values(|t: String| t@) =~= derivation_lines(text@, source@, amount@, derivation@));
    }
    Some(lines)
}

/// What a sensitivity breakpoint found.
#[derive(Clone, Debug)]
pub struct Breakpoint {
    pub breaks_within_range: bool,
    /// The amount per occurrence at which the path breaks, as the money type writes it.
    pub breaking_amount: Option<String>,
    /// The arrival date from which the path breaks.
    pub breaking_date: Option<i32>,
    /// What was searched, as the engine describes it.
    pub searched: String,
}

/// Which dimension a breakpoint tested: arrival dates when it found a date
/// or searched anything but the amount per occurrence.
pub open spec fn tested_amount(b: Breakpoint) -> bool {
    b.breaking_date is None && crate::text::contains_seq(b.searched@, "per occurrence"@)
}

pub fn tested_dimension(b: &Breakpoint) -> (r: String)
    ensures
        r@ == (if tested_amount(*b) { "Amount per occurrence"@ } else { "Arrival date"@ }),
{
    if b.breaking_date.is_some() || !crate::text::contains_text(b.searched.as_str(), "per occurrence") {
        String::from_str("Arrival date")
    } else {
        String::from_str("Amount per occurrence")
    }
}

/// The result of a breakpoint: where it breaks when it breaks inside the
/// declared range, by amount first, then by date.
pub open spec fn breakpoint_result(b: Breakpoint) -> Seq<char> {
    if b.breaks_within_range && b.breaking_amount is Some {
        "Breaks at "@ + b.breaking_amount.unwrap()@
    } else if b.breaks_within_range && b.breaking_date is Some {
        "Breaks from "@ + calendar_text(b.breaking_date.unwrap(), DatePattern::DayMonthYear)
    } else {
        "No breach inside the declared range"@
    }
}

pub fn breakpoint_result_text(b: &Breakpoint) -> (r: String)
    requires
        b.breaking_date matches Some(d) ==> valid_day(d as int),
    ensures
        r@ == breakpoint_result(*b),
{
    if b.breaks_within_range {
        if let Some(a) = &b.breaking_amount {
            let mut s = String::from_str("Breaks at ");
            push_str(&mut s, a.as_str());
            return s;
        }
        if let Some(d) = b.breaking_date {
            let mut s = String::from_str("Breaks from ");
            let t = date_text(d, DatePattern::DayMonthYear);
            push_str(&mut s, t.as_str());
            return s;
        }
    }
    String::from_str("No breach inside the declared range")
}

/// How a tag reads.
#[derive(Clone, Copy, PartialEq, Eq, Debug, Structural)]
pub enum TagTone {
    Danger,
    Warning,
    Info,
    Secondary,
}

/// A tag: its tone and its words.
#[derive(Clone, Debug)]
pub struct TagText {
    pub tone: TagTone,
    pub label: String,
}

/// A tag for a breakpoint's result, for tests and other screens.
pub fn breakpoint_tag(breaks: bool) -> (r: TagText)
    ensures
        breaks ==> r.tone == TagTone::Warning && r.label@ == "Breaks within range"@,
        !breaks ==> r.tone == TagTone::Secondary && r.label@ == "No breach in range"@,
{
    if breaks {
        TagText { tone: TagTone::Warning, label: String::from_str("Breaks within range") }
    } else {
        TagText { tone: TagTone::Secondary, label: String::from_str("No breach in range") }
    }
}

/// What the freshness of an assumption means, as the expanded row says it.
pub open spec fn freshness_meaning(f: Freshness) -> Seq<char> {
    match f {
        Freshness::Fresh => "Accepted within the last ninety days"@,
        Freshness::Stale => "Accepted more than ninety days ago and not reviewed since"@,
        Freshness::NotAccepted => "Nobody has accepted it yet"@,
        Freshness::Expired => "Past its expiry; accepting it again does not move the expiry"@,
    }
}

pub fn freshness_meaning_text(f: Freshness) -> (r: String)
    ensures
        r@ == freshness_meaning(f),
{
    match f {
        Freshness::Fresh => String::from_str("Accepted within the last ninety days"),
        Freshness::Stale => String::from_str("Accepted more than ninety days ago and not reviewed since"),
        Freshness::NotAccepted => String::from_str("Nobody has accepted it yet"),
        Freshness::Expired => String::from_str("Past its expiry; accepting it again does not move the expiry"),
    }
}

/// Whether a row carries `Accept`: while its condition needs a review.
pub open spec fn needs_review(f: Freshness) -> bool {
    f != Freshness::Fresh
}

/// The columns of a register row that the row's facts decide.
#[derive(Clone, Debug)]
pub struct ConditionColumns {
    /// What it applies to: the forecasts named, or every forecast.
    pub applies: String,
    /// `Accepted 05 Mar 2024`, or `Not accepted`.
    pub accepted: String,
    /// `Expires 31 Dec 2025`, or `No expiry`.
    pub expires: String,
    /// Whether the row offers `Accept`.
    pub accept: bool,
}

pub open spec fn applies_column(applies: Seq<String>) -> Seq<char> {
    if applies.len() == 0 { "Every forecast"@ } else { joined(texts(applies), ", "@) }
}

pub open spec fn accepted_column(accepted_on: Option<i32>) -> Seq<char> {
    match accepted_on { Some(d) => "Accepted "@ + calendar_text(d, DatePattern::DayMonthYear), None => "Not accepted"@ }
}

pub open spec fn expires_column(expires_on: Option<i32>) -> Seq<char> {
    match expires_on { Some(d) => "Expires "@ + calendar_text(d, DatePattern::DayMonthYear), None => "No expiry"@ }
}

fn dated_column(prefix: &str, day: Option<i32>, none: &str) -> (r: String)
    requires
        day matches Some(d) ==> valid_day(d as int),
    ensures
        r@ == match day { Some(d) => prefix@ + calendar_text(d, DatePattern::DayMonthYear), None => none@ },
{
    match day {
        Some(d) => {
            let mut s = text_of(prefix);
            let t = date_text(d, DatePattern::DayMonthYear);
            push_str(&mut s, t.as_str());
            s
        },
        None => text_of(none),
    }
}

pub fn condition_columns(applies: &Vec<String>, accepted_on: Option<i32>, expires_on: Option<i32>, freshness: Freshness) -> (r: ConditionColumns)
    requires
        accepted_on matches Some(d) ==> valid_day(d as int),
        expires_on matches Some(d) ==> valid_day(d as int),
    ensures
        r.applies@ == applies_column(applies@),
        r.accepted@ == accepted_column(accepted_on),
        r.expires@ == expires_column(expires_on),
        r.accept == needs_review(freshness),
{
    let applies_text = if applies.len() == 0 { text_of("Every forecast") } else { join_texts(applies, ", ") };
    let accepted = dated_column("Accepted ", accepted_on, "Not accepted");
    let expires = dated_column("Expires ", expires_on, "No expiry");
    ConditionColumns { applies: applies_text, accepted, expires, accept: freshness != Freshness::Fresh }
}

// ----- where an assumption comes from, and deriving one -------------------------

fn text_of(t: &str) -> (r: String)
    ensures
        r@ == t@,
{
    let mut s = String::new();
    push_str(&mut s, t);
    proof {
        assert(s@ =~= t@);
    }
    s
}

/// Where an assumption comes from.
#[derive(Clone, Debug)]
pub enum SourceKind {
    UserEntered,
    /// Derived from a number of reconciled payments.
    Derived(u64),
    /// From a rule pack, by name.
    RulePack(String),
    Scenario,
}

/// The register's short reading of a source.
pub open spec fn source_short(k: SourceKind) -> Seq<char> {
    match k {
        SourceKind::UserEntered => "Entered by the user"@,
        SourceKind::Derived(n) => "Derived from "@ + decimal(n as nat) + " payments"@,
        SourceKind::RulePack(p) => "Rule pack "@ + p@,
        SourceKind::Scenario => "Created by a scenario"@,
    }
}

pub fn source_short_text(k: &SourceKind) -> (r: String)
    ensures
        r@ == source_short(*k),
{
    match k {
        SourceKind::UserEntered => text_of("Entered by the user"),
        SourceKind::Derived(n) => {
            let mut s = text_of("Derived from ");
            push_decimal(&mut s, *n);
            push_str(&mut s, " payments");
            proof {
                assert(s@ =~= source_short(*k));
            }
            s
        },
        SourceKind::RulePack(p) => {
            let mut s = text_of("Rule pack ");
            push_str(&mut s, p.as_str());
            proof {
                assert(s@ =~= source_short(*k));
            }
            s
        },
        SourceKind::Scenario => text_of("Created by a scenario"),
    }
}

/// The line beside the register's count when other people's private
/// assumptions are left out.
pub open spec fn private_note(hidden: nat) -> Option<Seq<char>> {
    if hidden > 0 { Some("· "@ + decimal(hidden) + " private to other people are not listed"@) } else { None }
}

pub fn private_note_text(hidden: u64) -> (r: Option<String>)
    ensures
        r is Some <==> private_note(hidden as nat) is Some,
        r matches Some(t) ==> private_note(hidden as nat) == Some(t@),
{
    if hidden == 0 {
        return None;
    }
    let mut s = text_of("· ");
    push_decimal(&mut s, hidden);
    push_str(&mut s, " private to other people are not listed");
    proof {
        assert(s@ =~= "· "@ + decimal(hidden as nat) + " private to other people are not listed"@);
    }
    Some(s)
}

/// What a review means, on the day freshness is judged.
pub open spec fn review_note(as_of: i32) -> Seq<char> {
    "Freshness is judged on the reconciliation date, "@ + calendar_text(as_of, DatePattern::DayMonthYear)
        + ". Accepting records a review, not a refresh: a stale condition stays a condition until someone looks at it, and an expired one stays expired after it is accepted."@
}

pub fn review_note_text(as_of: i32) -> (r: String)
    requires
        valid_day(as_of as int),
    ensures
        r@ == review_note(as_of),
{
    let mut s = text_of("Freshness is judged on the reconciliation date, ");
    let d = date_text(as_of, DatePattern::DayMonthYear);
    push_str(&mut s, d.as_str());
    push_str(
        &mut s,
        ". Accepting records a review, not a refresh: a stale condition stays a condition until someone looks at it, and an expired one stays expired after it is accepted.",
    );
    proof {
        assert(s@ =~= review_note(as_of));
    }
    s
}

/// The sample a derivation read: how many payments, from when to when.
pub open spec fn sample_fact(size: nat, from: i32, to: i32) -> Seq<char> {
    decimal(size) + " payments · "@ + calendar_text(from, DatePattern::DayMonthYear) + " – "@
        + calendar_text(to, DatePattern::DayMonthYear)
}

pub fn sample_fact_text(size: u64, from: i32, to: i32) -> (r: String)
    requires
        valid_day(from as int),
        valid_day(to as int),
    ensures
        r@ == sample_fact(size as nat, from, to),
{
    let mut s = String::new();
    push_decimal(&mut s, size);
    push_str(&mut s, " payments · ");
    let a = date_text(from, DatePattern::DayMonthYear);
    push_str(&mut s, a.as_str());
    push_str(&mut s, " – ");
    let b = date_text(to, DatePattern::DayMonthYear);
    push_str(&mut s, b.as_str());
    proof {
        assert(s@ =~= sample_fact(size as nat, from, to));
    }
    s
}

/// Why a derivation could not be made, after the engine's own words.
pub open spec fn derivation_error(err: Seq<char>) -> Seq<char> {
    err + " — the engine reports what it has; nothing is fabricated to reach six payments."@
}

pub fn derivation_error_text(err: &str) -> (r: String)
    ensures
        r@ == derivation_error(err@),
{
    let mut s = text_of(err);
    push_str(&mut s, " — the engine reports what it has; nothing is fabricated to reach six payments.");
    proof {
        assert(s@ =~= derivation_error(err@));
    }
    s
}

/// The target's `After applying`: the derived amount, or nothing yet.
pub open spec fn after_applying(amount: Option<Seq<char>>) -> Seq<char> {
    match amount {
        Some(a) => a + " · derived from history · acceptance cleared until reviewed"@,
        None => "Nothing to apply yet"@,
    }
}

pub fn after_applying_text(amount: Option<&str>) -> (r: String)
    ensures
        r@ == after_applying(
            match amount {
                Some(a) => Some(a@),
                None => None,
            },
        ),
{
    match amount {
        Some(a) => {
            let mut s = text_of(a);
            push_str(&mut s, " · derived from history · acceptance cleared until reviewed");
            proof {
                assert(s@ =~= a@ + " · derived from history · acceptance cleared until reviewed"@);
            }
            s
        },
        None => text_of("Nothing to apply yet"),
    }
}

/// What the derive screen offers for the series' assumption.
#[derive(Clone, Copy, PartialEq, Eq, Debug, Structural)]
pub enum DerivationTarget {
    /// No assumption applies to the series: offer to add one.
    Missing,
    /// The assumption is private to someone else: it cannot be changed here.
    PrivateToOther,
    /// It can be changed, when a derivation exists.
    Available { can_apply: bool },
}

pub open spec fn derivation_target_of(target_private_to: Option<Option<u64>>, viewer: u64, derived: bool) -> DerivationTarget {
    match target_private_to {
        None => DerivationTarget::Missing,
        Some(Some(p)) if p != viewer => DerivationTarget::PrivateToOther,
        Some(_) => DerivationTarget::Available { can_apply: derived },
    }
}

/// `target_private_to` is the first assumption applying to the series, by
/// the person it is private to (none when no assumption applies).
pub fn derivation_target(target_private_to: Option<Option<u64>>, viewer: u64, derived: bool) -> (r: DerivationTarget)
    ensures
        r == derivation_target_of(target_private_to, viewer, derived),
{
    match target_private_to {
        None => DerivationTarget::Missing,
        Some(Some(p)) => {
            if p != viewer {
                DerivationTarget::PrivateToOther
            } else {
                DerivationTarget::Available { can_apply: derived }
            }
        },
        Some(None) => DerivationTarget::Available { can_apply: derived },
    }
}

/// One reconciled payment of a series' history: its day and the amount paid,
/// in minor units.
#[derive(Clone, Copy, PartialEq, Eq, Debug, Structural)]
pub struct PaidPayment {
    pub day: i32,
    pub amount: i64,
}

/// How many payments the derive screen shows as its sample.
pub const SAMPLE_SIZE: usize = 6;

/// The derive screen's sample: the newest payments of the history (which is
/// kept oldest first), newest first, at most six of them.
pub open spec fn derivation_sample_of(history: Seq<PaidPayment>) -> Seq<PaidPayment> {
    let n = if history.len() < SAMPLE_SIZE { history.len() as int } else { SAMPLE_SIZE as int };
    Seq::new(n as nat, |i: int| history[history.len() - 1 - i])
}

pub fn derivation_sample(history: &Vec<PaidPayment>) -> (r: Vec<PaidPayment>)
    ensures
        r@ == derivation_sample_of(history@),
{
    let n: usize = history.len();
    let mut r: Vec<PaidPayment> = Vec::new();
    let mut k: usize = 0;
    while k < n && k < SAMPLE_SIZE
        invariant
            n == history@.len(),
            k <= n,
            k <= SAMPLE_SIZE,
            r@.len() == k,
            forall|i: int| 0 <= i < k ==> r@[i] == history@[n - 1 - i],
        decreases n - k,
    {
        r.push(history[n - 1 - k]);
        k = k + 1;
    }
    assert(r@ =~= derivation_sample_of(history@));
    r
}

// ----- sensitivity -------------------------------------------------------------

/// What a breakpoint searched, under its statement.
pub open spec fn searched_note(searched: Seq<char>) -> Seq<char> {
    "Searched "@ + searched + " with everything else held at its expected value."@
}

pub fn searched_note_text(searched: &str) -> (r: String)
    ensures
        r@ == searched_note(searched@),
{
    let mut s = text_of("Searched ");
    push_str(&mut s, searched);
    push_str(&mut s, " with everything else held at its expected value.");
    proof {
        assert(s@ =~= searched_note(searched@));
    }
    s
}

/// The plan the sensitivity ran on: the scenario on show when the scenario
/// was chosen and one is on show, the baseline otherwise.
pub open spec fn sensitivity_plan(with_scenario: bool, overlay: Option<Seq<char>>) -> Seq<char> {
    match overlay {
        Some(name) if with_scenario => "with scenario “"@ + name + "”"@,
        _ => "baseline"@,
    }
}

/// The statement's scope: the path, the case and the plan.
pub open spec fn sensitivity_scope(boundary: Seq<char>, with_scenario: bool, overlay: Option<Seq<char>>) -> Seq<char> {
    boundary + " · Expected case · "@ + sensitivity_plan(with_scenario, overlay)
}

pub fn sensitivity_scope_text(boundary: &str, with_scenario: bool, overlay: Option<&str>) -> (r: String)
    ensures
        r@ == sensitivity_scope(
            boundary@,
            with_scenario,
            match overlay {
                Some(n) => Some(n@),
                None => None,
            },
        ),
{
    let mut s = text_of(boundary);
    push_str(&mut s, " · Expected case · ");
    match overlay {
        Some(name) => {
            if with_scenario {
                push_str(&mut s, "with scenario “");
                push_str(&mut s, name);
                push_str(&mut s, "”");
            } else {
                push_str(&mut s, "baseline");
            }
        },
        None => push_str(&mut s, "baseline"),
    }
    proof {
        assert(s@ =~= sensitivity_scope(
            boundary@,
            with_scenario,
            match overlay {
                Some(n) => Some(n@),
                None => None,
            },
        ));
    }
    s
}

/// What the sensitivity summary says: a warning when the expected path
/// already breaches the floor, else the limit's arithmetic and the day the
/// path holds through. Amounts are as the money type writes them.
pub open spec fn sensitivity_summary(
    breaches: bool,
    floor: Seq<char>,
    lowest: Seq<char>,
    limit: Seq<char>,
    through: i32,
) -> (Seq<char>, Option<Seq<char>>) {
    if breaches {
        (
            "The expected path already falls below the "@ + floor + " floor (lowest "@ + lowest
                + "). No hypothetical limit repairs that; the limits below are measured from the breached path."@,
            None,
        )
    } else {
        (
            lowest + " lowest on the expected path − "@ + floor + " hard floor = "@ + limit
                + " one-off unplanned-spending limit"@,
            Some(
                "The expected path holds the floor through "@ + calendar_text(through, DatePattern::DayMonthYear)
                    + ", before any assumption is moved."@,
            ),
        )
    }
}

pub fn sensitivity_summary_text(breaches: bool, floor: &str, lowest: &str, limit: &str, through: i32) -> (r: (String, Option<String>))
    requires
        valid_day(through as int),
    ensures
        ({
            let (main, detail) = sensitivity_summary(breaches, floor@, lowest@, limit@, through);
            &&& r.0@ == main
            &&& (r.1 is Some <==> detail is Some)
            &&& (r.1 matches Some(t) ==> detail == Some(t@))
        }),
{
    if breaches {
        let mut s = text_of("The expected path already falls below the ");
        push_str(&mut s, floor);
        push_str(&mut s, " floor (lowest ");
        push_str(&mut s, lowest);
        push_str(&mut s, "). No hypothetical limit repairs that; the limits below are measured from the breached path.");
        proof {
            assert(s@ =~= sensitivity_summary(breaches, floor@, lowest@, limit@, through).0);
        }
        (s, None)
    } else {
        let mut s = text_of(lowest);
        push_str(&mut s, " lowest on the expected path − ");
        push_str(&mut s, floor);
        push_str(&mut s, " hard floor = ");
        push_str(&mut s, limit);
        push_str(&mut s, " one-off unplanned-spending limit");
        let mut t = text_of("The expected path holds the floor through ");
        let d = date_text(through, DatePattern::DayMonthYear);
        push_str(&mut t, d.as_str());
        push_str(&mut t, ", before any assumption is moved.");
        proof {
            assert(s@ =~= sensitivity_summary(breaches, floor@, lowest@, limit@, through).0);
            assert(Some(t@) == sensitivity_summary(breaches, floor@, lowest@, limit@, through).1);
        }
        (s, Some(t))
    }
}

/// The heading of the lowest figure.
pub open spec fn lowest_on(boundary: Seq<char>) -> Seq<char> {
    "Lowest on the "@ + boundary + " path"@
}

pub fn lowest_on_text(boundary: &str) -> (r: String)
    ensures
        r@ == lowest_on(boundary@),
{
    let mut s = text_of("Lowest on the ");
    push_str(&mut s, boundary);
    push_str(&mut s, " path");
    proof {
        assert(s@ =~= lowest_on(boundary@));
    }
    s
}

/// Who an assumption is visible to.
pub open spec fn visibility_fact(private: bool) -> Seq<char> {
    if private { "Private to you"@ } else { "Household"@ }
}

pub fn visibility_fact_text(private: bool) -> (r: String)
    ensures
        r@ == visibility_fact(private),
{
    if private { text_of("Private to you") } else { text_of("Household") }
}

/// The tooltip of `Recompute`: whether the result below still matches the scope.
pub open spec fn recompute_tip(pending: bool) -> Seq<char> {
    if pending { "Recompute for the scope chosen below"@ } else { "The result below matches the scope"@ }
}

pub fn recompute_tip_text(pending: bool) -> (r: String)
    ensures
        r@ == recompute_tip(pending),
{
    if pending { text_of("Recompute for the scope chosen below") } else { text_of("The result below matches the scope") }
}

// ----- the sensitivity statement ------------------------------------------------------

/// An assumption as the sensitivity statement reads it: whom it is private
/// to, and whether it applies to every forecast or to a series the household
/// still holds.
#[derive(Clone, Copy, Debug)]
pub struct StatementAssumption {
    pub private_to: Option<u64>,
    pub applies_everywhere: bool,
    pub applies_to_known_series: bool,
}

/// Whether the statement lists an assumption for a viewer.
pub open spec fn in_statement(a: StatementAssumption, viewer: u64) -> bool {
    (a.private_to matches Some(p) ==> p == viewer) && (a.applies_everywhere || a.applies_to_known_series)
}

pub open spec fn statement_positions(s: Seq<StatementAssumption>, viewer: u64, k: nat) -> Seq<usize>
    decreases k,
{
    if k == 0 || k > s.len() {
        Seq::empty()
    } else {
        let p = statement_positions(s, viewer, (k - 1) as nat);
        if in_statement(s[k - 1], viewer) { p.push((k - 1) as usize) } else { p }
    }
}

/// Whether an assumption is private to someone other than the viewer.
pub open spec fn private_to_other(a: StatementAssumption, viewer: u64) -> bool {
    match a.private_to {
        Some(p) => p != viewer,
        None => false,
    }
}

/// Whether some assumption is private to someone other than the viewer.
pub open spec fn some_private_to_others(s: Seq<StatementAssumption>, viewer: u64) -> bool {
    exists|i: int| 0 <= i < s.len() && private_to_other(#[trigger] s[i], viewer)
}

/// The assumptions the sensitivity statement lists, by position, and whether
/// it must say that others are withheld.
pub fn statement_assumptions(s: &Vec<StatementAssumption>, viewer: u64) -> (r: (Vec<usize>, bool))
    ensures
        r.0@ == statement_positions(s@, viewer, s@.len()),
        r.1 == some_private_to_others(s@, viewer),
{
    let mut out: Vec<usize> = Vec::new();
    let mut hidden = false;
    let n = s.len();
    for i in 0..n
        invariant
            n == s@.len(),
            out@ == statement_positions(s@, viewer, i as nat),
            hidden == exists|j: int| 0 <= j < i && private_to_other(#[trigger] s@[j], viewer),
    {
        let a = s[i];
        let (visible, other) = match a.private_to {
            Some(p) => (p == viewer, p != viewer),
            None => (true, false),
        };
        if visible && (a.applies_everywhere || a.applies_to_known_series) {
            out.push(i);
        }
        proof {
            if other {
                assert(private_to_other(s@[i as int], viewer));
            }
            if hidden {
                let j = choose|j: int| 0 <= j < i && private_to_other(#[trigger] s@[j], viewer);
                assert(0 <= j < i + 1);
            }
        }
        hidden = hidden || other;
    }
    (out, hidden)
}

} // verus!
