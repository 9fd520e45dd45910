//! The timeline: which planned series a viewer sees under the plan on show,
//! which expanded occurrences the filters keep, the totals still to come, and
//! the timeline's sentences.

use vstd::prelude::*;
use crate::access::{Disclosure, derived_shown, existence_shown, shows_derived, shows_existence};
use crate::text::{
    DatePattern, calendar_text, date_text, decimal, joined, join_texts, push_decimal, push_str, texts, valid_day,
};

verus! {

/// Whose money a series or an occurrence is.
#[derive(Clone, Copy, PartialEq, Eq, Debug, Structural)]
pub enum Entity {
    Household,
    Person(u64),
    Company(u64),
}

/// Which way an occurrence moves money.
#[derive(Clone, Copy, PartialEq, Eq, Debug, Structural)]
pub enum Direction {
    Income,
    Expense,
    /// A transfer to the given account.
    Transfer(u64),
}

/// A planned series and what the viewer is shown of it.
#[derive(Clone, Copy, Debug)]
pub struct SeriesInput {
    pub id: u64,
    /// The disclosure of the account the series posts to.
    pub account_disclosure: Disclosure,
    pub entity: Entity,
    /// The disclosure of the series' company, when its entity is a company.
    pub entity_disclosure: Disclosure,
    /// The scenario the series belongs to; none for the baseline.
    pub scenario: Option<u64>,
}

/// One expanded occurrence of a series, as the engine reports it.
#[derive(Clone, Copy, Debug)]
pub struct Occurrence {
    pub series: u64,
    pub entity: Entity,
    pub account: u64,
    pub linked_account: Option<u64>,
    pub direction: Direction,
    /// The engine's certainty level, by its code.
    pub certainty: u8,
    /// The engine's occurrence status, by its code.
    pub status: u8,
    /// Whether it still posts (not skipped, cancelled or fulfilled).
    pub live: bool,
    /// The expected amount less what was already received or paid, in minor units.
    pub remaining: i64,
}

/// The filters of the timeline.
#[derive(Clone, Copy, Debug)]
pub struct TimelineFilter {
    pub entity: Option<Entity>,
    pub account: Option<u64>,
    pub certainty: Option<u8>,
    pub status: Option<u8>,
    /// The scenario on show; none for the baseline only.
    pub scenario: Option<u64>,
    /// The last day of the window, as a day number.
    pub through: i32,
}

#[derive(Clone, Copy, PartialEq, Eq, Debug, Structural)]
pub enum TimelineError {
    /// A total does not fit in the money type.
    Overflow,
}

/// Whether a series belongs to the plan on show: the baseline, or the
/// scenario chosen.
pub open spec fn on_plan(s: SeriesInput, f: TimelineFilter) -> bool {
    s.scenario is None || s.scenario == f.scenario
}

/// Whether the viewer sees a series: its account exists for them and, for a
/// company's series, the company is shown in full or in selected fields.
pub open spec fn series_visible(s: SeriesInput) -> bool {
    existence_shown(s.account_disclosure) && match s.entity {
        Entity::Company(_) => derived_shown(s.entity_disclosure),
        _ => true,
    }
}

/// The visible series of the plan on show among the first `k`.
pub open spec fn visible_series(ss: Seq<SeriesInput>, f: TimelineFilter, k: nat) -> Seq<u64>
    decreases k,
{
    if k == 0 || k > ss.len() {
        Seq::empty()
    } else {
        let prev = visible_series(ss, f, (k - 1) as nat);
        let s = ss[k - 1];
        if series_visible(s) && on_plan(s, f) { prev.push(s.id) } else { prev }
    }
}

/// The series of the plan on show among the first `k`.
pub open spec fn plan_series_count(ss: Seq<SeriesInput>, f: TimelineFilter, k: nat) -> nat
    decreases k,
{
    if k == 0 || k > ss.len() {
        0
    } else {
        plan_series_count(ss, f, (k - 1) as nat) + if on_plan(ss[k - 1], f) { 1nat } else { 0nat }
    }
}

/// Whether an occurrence touches an account: it posts there, its linked
/// movement does, or it is a transfer to it.
pub open spec fn touches_account(o: Occurrence, a: u64) -> bool {
    o.account == a || o.linked_account == Some(a) || o.direction == Direction::Transfer(a)
}

/// Whether the filters keep an occurrence of a visible series.
pub open spec fn kept(o: Occurrence, series: Seq<u64>, f: TimelineFilter) -> bool {
    &&& series.contains(o.series)
    &&& (f.entity matches Some(e) ==> o.entity == e)
    &&& (f.account matches Some(a) ==> touches_account(o, a))
    &&& (f.certainty matches Some(c) ==> o.certainty == c)
    &&& (f.status matches Some(st) ==> o.status == st)
}

pub open spec fn kept_occurrences(os: Seq<Occurrence>, series: Seq<u64>, f: TimelineFilter, k: nat) -> Seq<Occurrence>
    decreases k,
{
    if k == 0 || k > os.len() {
        Seq::empty()
    } else {
        let prev = kept_occurrences(os, series, f, (k - 1) as nat);
        if kept(os[k - 1], series, f) { prev.push(os[k - 1]) } else { prev }
    }
}

/// Whether a value fits the money type.
pub open spec fn fits(v: int) -> bool {
    i64::MIN <= v <= i64::MAX
}

/// The remaining amounts of the first `k` live occurrences in one direction,
/// added in order; nothing when a partial sum leaves the money type.
pub open spec fn live_total(os: Seq<Occurrence>, d: Direction, k: nat) -> Option<int>
    decreases k,
{
    if k == 0 || k > os.len() {
        Some(0)
    } else {
        match live_total(os, d, (k - 1) as nat) {
            None => None,
            Some(t) => {
                let o = os[k - 1];
                if o.direction == d && o.live {
                    if fits(t + o.remaining) { Some(t + o.remaining) } else { None }
                } else {
                    Some(t)
                }
            },
        }
    }
}

/// Rows and lists for the timeline, computed once per state change.
#[derive(Clone, Debug)]
pub struct TimelineModel {
    pub filter: TimelineFilter,
    pub occurrences: Vec<Occurrence>,
    pub total_in: i64,
    pub total_out: i64,
    /// Series the viewer may see, in the household's order.
    pub series: Vec<u64>,
    pub hidden_series: usize,
}

fn series_ids_contain(ids: &Vec<u64>, id: u64) -> (r: bool)
    ensures
        r == ids@.contains(id),
{
    let n = ids.len();
    for i in 0..n
        invariant
            n == ids@.len(),
            forall|j: int| 0 <= j < i ==> ids@[j] != id,
    {
        if ids[i] == id {
            proof { assert(ids@.contains(id)); }
            return true;
        }
    }
    false
}

fn is_kept(o: &Occurrence, series: &Vec<u64>, f: &TimelineFilter) -> (r: bool)
    ensures
        r == kept(*o, series@, *f),
{
    if !series_ids_contain(series, o.series) {
        return false;
    }
    let entity_ok = match f.entity {
        Some(e) => o.entity == e,
        None => true,
    };
    let account_ok = match f.account {
        Some(a) => o.account == a || o.linked_account == Some(a) || o.direction == Direction::Transfer(a),
        None => true,
    };
    let certainty_ok = match f.certainty {
        Some(c) => o.certainty == c,
        None => true,
    };
    let status_ok = match f.status {
        Some(st) => o.status == st,
        None => true,
    };
    entity_ok && account_ok && certainty_ok && status_ok
}

/// The total still to come in one direction over the kept occurrences.
pub fn sum_live(os: &Vec<Occurrence>, d: Direction) -> (r: Result<i64, TimelineError>)
    ensures
        match r {
            Ok(t) => live_total(os@, d, os@.len()) == Some(t as int),
            Err(_) => live_total(os@, d, os@.len()) is None,
        },
{
    let n = os.len();
    let mut total: i64 = 0;
    for i in 0..n
        invariant
            n == os@.len(),
            live_total(os@, d, i as nat) == Some(total as int),
    {
        let o = os[i];
        if o.direction == d && o.live {
            match total.checked_add(o.remaining) {
                Some(t) => total = t,
                None => {
                    proof {
                        assert(live_total(os@, d, (i + 1) as nat) is None);
                        lemma_total_stays_none(os@, d, (i + 1) as nat, n as nat);
                    }
                    return Err(TimelineError::Overflow);
                },
            }
        }
    }
    Ok(total)
}

/// Once a partial sum leaves the money type, the total is nothing.
pub proof fn lemma_total_stays_none(os: Seq<Occurrence>, d: Direction, k: nat, m: nat)
    requires
        live_total(os, d, k) is None,
        k <= m <= os.len(),
    ensures
        live_total(os, d, m) is None,
    decreases m - k,
{
    if k < m {
        lemma_total_stays_none(os, d, k, (m - 1) as nat);
    }
}

impl TimelineModel {
    /// The timeline for one viewer under one filter, from the household's
    /// series and the engine's expansion of them through the window.
    pub fn compute(series: &Vec<SeriesInput>, expanded: &Vec<Occurrence>, filter: TimelineFilter) -> (r: Result<TimelineModel, TimelineError>)
        ensures
            match r {
                Ok(m) => {
                    let shown = visible_series(series@, filter, series@.len());
                    let kept = kept_occurrences(expanded@, shown, filter, expanded@.len());
                    &&& m.series@ == shown
                    &&& m.hidden_series + shown.len() == plan_series_count(series@, filter, series@.len())
                    &&& m.occurrences@ == kept
                    &&& live_total(kept, Direction::Income, kept.len()) == Some(m.total_in as int)
                    &&& live_total(kept, Direction::Expense, kept.len()) == Some(m.total_out as int)
                    &&& m.filter == filter
                },
                Err(_) => {
                    let shown = visible_series(series@, filter, series@.len());
                    let kept = kept_occurrences(expanded@, shown, filter, expanded@.len());
                    live_total(kept, Direction::Income, kept.len()) is None
                        || live_total(kept, Direction::Expense, kept.len()) is None
                },
            },
    {
        let n = series.len();
        let mut shown: Vec<u64> = Vec::new();
        let mut on_plan_count: usize = 0;
        for i in 0..n
            invariant
                n == series@.len(),
                shown@ == visible_series(series@, filter, i as nat),
                on_plan_count == plan_series_count(series@, filter, i as nat),
                shown@.len() <= on_plan_count <= i,
        {
            let s = series[i];
            let plan = s.scenario.is_none() || s.scenario == filter.scenario;
            if plan {
                on_plan_count = on_plan_count + 1;
            }
            let entity_ok = match s.entity {
                Entity::Company(_) => shows_derived(s.entity_disclosure),
                _ => true,
            };
            if shows_existence(s.account_disclosure) && entity_ok && plan {
                shown.push(s.id);
            }
        }
        let hidden = on_plan_count - shown.len();

        let m = expanded.len();
        let mut kept_list: Vec<Occurrence> = Vec::new();
        for i in 0..m
            invariant
                m == expanded@.len(),
                kept_list@ == kept_occurrences(expanded@, shown@, filter, i as nat),
        {
            let o = expanded[i];
            if is_kept(&o, &shown, &filter) {
                kept_list.push(o);
            }
        }
        let total_in = match sum_live(&kept_list, Direction::Income) {
            Ok(t) => t,
            Err(e) => return Err(e),
        };
        let total_out = match sum_live(&kept_list, Direction::Expense) {
            Ok(t) => t,
            Err(e) => return Err(e),
        };
        Ok(TimelineModel { filter, occurrences: kept_list, total_in, total_out, series: shown, hidden_series: hidden })
    }
}

/// Every kept occurrence belongs to a visible series of the plan on show
/// and passes every filter that is set.
pub proof fn kept_occurrences_pass_the_filters(os: Seq<Occurrence>, series: Seq<u64>, f: TimelineFilter, k: nat)
    requires
        k <= os.len(),
    ensures
        forall|j: int| 0 <= j < kept_occurrences(os, series, f, k).len()
            ==> kept(#[trigger] kept_occurrences(os, series, f, k)[j], series, f),
        kept_occurrences(os, series, f, k).len() <= k,
    decreases k,
{
    if k > 0 {
        kept_occurrences_pass_the_filters(os, series, f, (k - 1) as nat);
    }
}

/// The timeline keeps exactly the occurrences of visible series that every
/// set filter admits: of the named entity, touching the named account, of
/// the named certainty and status; no other, and none of these is dropped.
pub proof fn timeline_keeps_exactly_the_filtered(os: Seq<Occurrence>, series: Seq<u64>, f: TimelineFilter)
    ensures
        forall|j: int| 0 <= j < kept_occurrences(os, series, f, os.len()).len() ==> {
            let o = #[trigger] kept_occurrences(os, series, f, os.len())[j];
            &&& os.contains(o)
            &&& series.contains(o.series)
            &&& f.entity matches Some(e) ==> o.entity == e
            &&& f.account matches Some(a) ==> (o.account == a || o.linked_account == Some(a) || o.direction == Direction::Transfer(a))
            &&& f.certainty matches Some(c) ==> o.certainty == c
            &&& f.status matches Some(st) ==> o.status == st
        },
        forall|j: int| 0 <= j < os.len() && {
            let o = #[trigger] os[j];
            &&& series.contains(o.series)
            &&& f.entity matches Some(e) ==> o.entity == e
            &&& f.account matches Some(a) ==> (o.account == a || o.linked_account == Some(a) || o.direction == Direction::Transfer(a))
            &&& f.certainty matches Some(c) ==> o.certainty == c
            &&& f.status matches Some(st) ==> o.status == st
        } ==> kept_occurrences(os, series, f, os.len()).contains(os[j]),
{
    kept_members(os, series, f, os.len());
    kept_occurrences_pass_the_filters(os, series, f, os.len());
}

proof fn kept_members(os: Seq<Occurrence>, series: Seq<u64>, f: TimelineFilter, k: nat)
    requires
        k <= os.len(),
    ensures
        forall|j: int| 0 <= j < kept_occurrences(os, series, f, k).len()
            ==> os.contains(#[trigger] kept_occurrences(os, series, f, k)[j]),
        forall|j: int| 0 <= j < k && kept(#[trigger] os[j], series, f) ==> kept_occurrences(os, series, f, k).contains(os[j]),
    decreases k,
{
    if k > 0 {
        kept_members(os, series, f, (k - 1) as nat);
        let prev = kept_occurrences(os, series, f, (k - 1) as nat);
        let cur = kept_occurrences(os, series, f, k);
        assert forall|j: int| 0 <= j < cur.len() implies os.contains(#[trigger] cur[j]) by {
            if j < prev.len() {
                assert(cur[j] == prev[j]);
            } else {
                assert(cur[j] == os[k - 1]);
            }
        }
        assert forall|j: int| 0 <= j < k && kept(#[trigger] os[j], series, f) implies cur.contains(os[j]) by {
            if j < k - 1 {
                let m = choose|m: int| 0 <= m < prev.len() && prev[m] == os[j];
                assert(cur[m] == os[j]);
            } else {
                assert(cur[cur.len() - 1] == os[j]);
            }
        }
    }
}

/// A visible series is one of the plan on show, and the hidden count is
/// never negative: the visible series are at most the plan's series.
pub proof fn visible_series_within_plan(ss: Seq<SeriesInput>, f: TimelineFilter, k: nat)
    requires
        k <= ss.len(),
    ensures
        visible_series(ss, f, k).len() <= plan_series_count(ss, f, k),
    decreases k,
{
    if k > 0 {
        visible_series_within_plan(ss, f, (k - 1) as nat);
    }
}

// ----- actuals and series --------------------------------------------------------

/// A link of an actual to the occurrence it settled: the series (by name, or
/// its id when it is gone), the occurrence's original due day and the amount
/// as the money formatter wrote it.
#[derive(Clone, Debug)]
pub struct SettlementLink {
    pub series: u64,
    pub series_name: Option<String>,
    pub original_due: i32,
    pub amount: String,
}

/// `Salary due 05 Mar 2024 — 100,000`.
pub open spec fn link_line(l: SettlementLink) -> Seq<char> {
    (match l.series_name {
        Some(n) => n@,
        None => decimal(l.series as nat),
    }) + " due "@ + calendar_text(l.original_due, DatePattern::DayMonthYear) + " — "@ + l.amount@
}

pub fn link_line_text(l: &SettlementLink) -> (r: String)
    requires
        valid_day(l.original_due as int),
    ensures
        r@ == link_line(*l),
{
    let mut s = String::new();
    match &l.series_name {
        Some(n) => push_str(&mut s, n.as_str()),
        None => push_decimal(&mut s, l.series),
    }
    push_str(&mut s, " due ");
    let d = date_text(l.original_due, DatePattern::DayMonthYear);
    push_str(&mut s, d.as_str());
    push_str(&mut s, " — ");
    push_str(&mut s, l.amount.as_str());
    proof {
        assert(s@ =~= link_line(*l));
    }
    s
}

/// An actual's reconciliation cell: its links joined by ` · `, or
/// `unreconciled` when it has none.
pub open spec fn reconciliation(links: Seq<SettlementLink>) -> Seq<char> {
    if links.len() == 0 {
        "unreconciled"@
    } else {
        joined(links.map_values(|l: SettlementLink| link_line(l)), " · "@)
    }
}

pub fn reconciliation_text(links: &Vec<SettlementLink>) -> (r: String)
    requires
        forall|i: int| 0 <= i < links@.len() ==> valid_day(#[trigger] links@[i].original_due as int),
    ensures
        r@ == reconciliation(links@),
{
    if links.len() == 0 {
        return "unreconciled".to_string();
    }
    let mut lines: Vec<String> = Vec::new();
    let n = links.len();
    for i in 0..n
        invariant
            n == links@.len(),
            forall|k: int| 0 <= k < links@.len() ==> valid_day(#[trigger] links@[k].original_due as int),
            lines@.len() == i,
            forall|k: int| 0 <= k < i ==> #[trigger] lines@[k]@ == link_line(links@[k]),
    {
        let line = link_line_text(&links[i]);
        lines.push(line);
    }
    let s = join_texts(&lines, " · ");
    proof {
        assert(texts(lines@) =~= links@.map_values(|l: SettlementLink| link_line(l)));
    }
    s
}

/// Whether an actual is listed: the viewer sees its account in full or in
/// selected fields.
pub fn actual_listed(account_disclosure: Disclosure) -> (r: bool)
    ensures
        r == derived_shown(account_disclosure),
{
    shows_derived(account_disclosure)
}

/// The sentence over the series table: how many series generate the
/// movements, how many are not disclosed, and what can be done to them.
pub open spec fn series_note(shown: nat, hidden: nat) -> Seq<char> {
    decimal(shown) + " series generate the movements above"@ + (if hidden > 0 {
        " ("@ + decimal(hidden) + " not disclosed to this viewer)"@
    } else {
        Seq::empty()
    }) + ". Edit one occurrence, change the amount from a date on, or end a series without recreating it."@
}

pub fn series_note_text(shown: u64, hidden: u64) -> (r: String)
    ensures
        r@ == series_note(shown as nat, hidden as nat),
{
    let mut s = String::new();
    push_decimal(&mut s, shown);
    push_str(&mut s, " series generate the movements above");
    if hidden > 0 {
        push_str(&mut s, " (");
        push_decimal(&mut s, hidden);
        push_str(&mut s, " not disclosed to this viewer)");
    }
    push_str(&mut s, ". Edit one occurrence, change the amount from a date on, or end a series without recreating it.");
    proof {
        assert(s@ =~= series_note(shown as nat, hidden as nat));
    }
    s
}

// ----- the timeline's sentences ------------------------------------------------

/// The timeline's header line.
pub open spec fn timeline_header(count: nat, from: i32, through: i32) -> Seq<char> {
    decimal(count) + " planned movements from "@ + calendar_text(from, DatePattern::DayMonthYear) + " through "@
        + calendar_text(through, DatePattern::DayMonthYear)
        + ", each with its due, settlement and availability dates and whether it has been paid"@
}

pub fn timeline_header_text(count: u64, from: i32, through: i32) -> (r: String)
    requires
        valid_day(from as int),
        valid_day(through as int),
    ensures
        r@ == timeline_header(count as nat, from, through),
{
    let mut s = String::new();
    push_decimal(&mut s, count);
    push_str(&mut s, " planned movements from ");
    let a = date_text(from, DatePattern::DayMonthYear);
    push_str(&mut s, a.as_str());
    push_str(&mut s, " through ");
    let b = date_text(through, DatePattern::DayMonthYear);
    push_str(&mut s, b.as_str());
    push_str(&mut s, ", each with its due, settlement and availability dates and whether it has been paid");
    proof { assert(s@ =~= timeline_header(count as nat, from, through)); }
    s
}

/// The check box that lays a scenario over the timeline.
pub open spec fn overlay_label(scenario: Seq<char>) -> Seq<char> {
    "Overlay scenario “"@ + scenario + "”"@
}

pub fn overlay_label_text(scenario: &str) -> (r: String)
    ensures
        r@ == overlay_label(scenario@),
{
    let mut s = String::new();
    push_str(&mut s, "Overlay scenario “");
    push_str(&mut s, scenario);
    push_str(&mut s, "”");
    proof { assert(s@ =~= overlay_label(scenario@)); }
    s
}

/// The title of the occurrence list: the baseline, and the scenario laid over it.
pub open spec fn occurrences_title(scenario: Option<Seq<char>>) -> Seq<char> {
    match scenario {
        Some(n) => "Occurrences — baseline + scenario “"@ + n + "”"@,
        None => "Occurrences — baseline"@,
    }
}

pub fn occurrences_title_text(scenario: &Option<String>) -> (r: String)
    ensures
        r@ == occurrences_title(match scenario { Some(n) => Some(n@), None => None }),
{
    match scenario {
        Some(n) => {
            let mut s = String::new();
            push_str(&mut s, "Occurrences — baseline + scenario “");
            push_str(&mut s, n.as_str());
            push_str(&mut s, "”");
            proof { assert(s@ =~= occurrences_title(Some(n@))); }
            s
        },
        None => String::from_str("Occurrences — baseline"),
    }
}

/// What is still to come, the totals written.
pub open spec fn still_to_come(total_in: Seq<char>, total_out: Seq<char>) -> Seq<char> {
    "Still to come: "@ + total_in + " in · "@ + total_out
        + " out (expected values, less what has already been received or paid). Skipped, cancelled and fulfilled rows post nothing."@
}

pub fn still_to_come_text(total_in: &str, total_out: &str) -> (r: String)
    ensures
        r@ == still_to_come(total_in@, total_out@),
{
    let mut s = String::new();
    push_str(&mut s, "Still to come: ");
    push_str(&mut s, total_in);
    push_str(&mut s, " in · ");
    push_str(&mut s, total_out);
    push_str(&mut s, " out (expected values, less what has already been received or paid). Skipped, cancelled and fulfilled rows post nothing.");
    proof { assert(s@ =~= still_to_come(total_in@, total_out@)); }
    s
}

/// A series' clocks: its recurrence, written, its lags and its order in a day.
pub open spec fn series_clocks(recurrence: Seq<char>, settles: nat, available: nat, order: nat) -> Seq<char> {
    recurrence + " · settles +"@ + decimal(settles) + "d · available +"@ + decimal(available) + "d · order "@ + decimal(order)
}

pub fn series_clocks_text(recurrence: &str, settles: u32, available: u32, order: u32) -> (r: String)
    ensures
        r@ == series_clocks(recurrence@, settles as nat, available as nat, order as nat),
{
    let mut s = String::new();
    push_str(&mut s, recurrence);
    push_str(&mut s, " · settles +");
    push_decimal(&mut s, settles as u64);
    push_str(&mut s, "d · available +");
    push_decimal(&mut s, available as u64);
    push_str(&mut s, "d · order ");
    push_decimal(&mut s, order as u64);
    proof { assert(s@ =~= series_clocks(recurrence@, settles as nat, available as nat, order as nat)); }
    s
}

/// A change of a series' amount: `from 01 Jan 2025: 1,200.00 EUR`.
pub open spec fn amount_change(from: i32, amount: Seq<char>) -> Seq<char> {
    "from "@ + calendar_text(from, DatePattern::DayMonthYear) + ": "@ + amount
}

pub fn amount_change_text(from: i32, amount: &str) -> (r: String)
    requires
        valid_day(from as int),
    ensures
        r@ == amount_change(from, amount@),
{
    let mut s = String::new();
    push_str(&mut s, "from ");
    let d = date_text(from, DatePattern::DayMonthYear);
    push_str(&mut s, d.as_str());
    push_str(&mut s, ": ");
    push_str(&mut s, amount);
    proof { assert(s@ =~= amount_change(from, amount@)); }
    s
}

} // verus!
