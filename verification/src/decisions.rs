//! Decisions: the step builders (a purchase, an extraction comparison) and
//! what moving between their steps does, the funding-source order, the
//! state a calculation leaves, and the readings of the result's grid.

use vstd::prelude::*;
use crate::scenarios::ComparedPoint;
use crate::text::{
    DatePattern, calendar_text, contains_seq, contains_text, date_text, decimal, joined, join_texts, push_decimal,
    push_signed, push_str, signed_decimal, texts, trim, trimmed, valid_day,
};

verus! {

/// The purchase builder's steps.
pub open spec fn step_title(step: nat) -> Seq<char> {
    if step == 0 { "Purchase"@ } else if step == 1 { "Down payment"@ } else if step == 2 { "Recurring payment"@ } else { "Other costs"@ }
}

/// The last step of a four-step builder.
pub open spec fn last_step() -> nat { 3 }

/// The step on show: the stored step, never past the last.
pub fn shown_step(step: usize) -> (r: usize)
    ensures
        r as nat == if step <= 3 { step as nat } else { last_step() },
{
    if step < 3 { step } else { 3 }
}

/// What a click on a step of the stepper does.
#[derive(Clone, Copy, PartialEq, Eq, Debug, Structural)]
pub enum StepClick {
    /// Go to that step.
    Go(usize),
    /// Refuse: later steps are not skipped; `Next` validates the current one.
    Refuse,
}

/// Completed steps and the current one are navigable; later ones are not.
pub open spec fn step_click_of(current: nat, target: nat) -> StepClick {
    if target <= current { StepClick::Go(target as usize) } else { StepClick::Refuse }
}

pub fn step_click(current: usize, target: usize) -> (r: StepClick)
    ensures
        r == step_click_of(current as nat, target as nat),
{
    if target <= current { StepClick::Go(target) } else { StepClick::Refuse }
}

/// A click never moves the builder past the step it is on.
pub proof fn step_click_never_skips(current: nat, target: nat)
    ensures
        step_click_of(current, target) matches StepClick::Go(t) ==> t <= current,
{
}

/// The line beside `Next`: the step that follows, or the result after the last.
pub open spec fn next_line(step: nat) -> Seq<char> {
    if step < 3 { "Next: "@ + step_title(step + 1) } else { "Next: the result"@ }
}

pub fn next_line_text(step: usize) -> (r: String)
    ensures
        r@ == next_line(step as nat),
{
    if step < 3 {
        let mut s = String::from_str("Next: ");
        let title = if step == 0 { "Down payment" } else if step == 1 { "Recurring payment" } else { "Other costs" };
        push_str(&mut s, title);
        s
    } else {
        String::from_str("Next: the result")
    }
}

/// `Back` goes one step back and is disabled on the first step.
pub fn back_target(step: usize) -> (r: Option<usize>)
    ensures
        step == 0 ==> r is None,
        step > 0 ==> r == Some((step - 1) as usize),
{
    if step == 0 { None } else { Some(step - 1) }
}

/// The position a funding source moves to: one up, or one down while one
/// stays below it.
pub open spec fn move_target(index: nat, up: bool, len: nat) -> Option<nat> {
    if up {
        if index >= 1 { Some((index - 1) as nat) } else { None }
    } else {
        if index + 1 < len { Some(index + 1) } else { None }
    }
}

/// Reorders the personal funding sources of the draft: swaps a source with
/// the one above or below it, its allow flag with it when the draft holds one.
pub fn move_funding_source(floors: &mut Vec<u64>, allowed: &mut Vec<bool>, index: usize, up: bool)
    requires
        index < old(floors)@.len(),
    ensures
        match move_target(index as nat, up, old(floors)@.len()) {
            None => final(floors)@ == old(floors)@ && final(allowed)@ == old(allowed)@,
            Some(t) => {
                &&& final(floors)@ == old(floors)@.update(index as int, old(floors)@[t as int]).update(t as int, old(floors)@[index as int])
                &&& if old(allowed)@.len() > t && old(allowed)@.len() > index {
                    final(allowed)@ == old(allowed)@.update(index as int, old(allowed)@[t as int]).update(t as int, old(allowed)@[index as int])
                } else {
                    final(allowed)@ == old(allowed)@
                }
            },
        },
{
    let len = floors.len();
    let target = if up {
        if index >= 1 { Some(index - 1) } else { None }
    } else {
        if index + 1 < len { Some(index + 1) } else { None }
    };
    let target = match target {
        Some(t) => t,
        None => return,
    };
    let a = floors[index];
    let b = floors[target];
    floors.set(index, b);
    floors.set(target, a);
    let larger = if target > index { target } else { index };
    if allowed.len() > larger {
        let x = allowed[index];
        let y = allowed[target];
        allowed.set(index, y);
        allowed.set(target, x);
    }
}

/// Moving a source up and then down again restores the order.
pub proof fn move_up_then_down(s: Seq<u64>, index: nat)
    requires
        1 <= index < s.len(),
    ensures
        ({
            let t = (index - 1) as int;
            let once = s.update(index as int, s[t]).update(t, s[index as int]);
            let twice = once.update(t, once[index as int]).update(index as int, once[t]);
            move_target(index, true, s.len()) == Some(t as nat)
                && move_target(t as nat, false, s.len()) == Some(index)
                && twice =~= s
        }),
{
}

/// Which of the purchase's two screens is on show.
#[derive(Clone, Copy, PartialEq, Eq, Debug, Structural)]
pub enum PurchaseScreen {
    /// The step builder.
    Builder,
    /// The result of the last calculation.
    Result,
}

/// The builder's state around a result.
#[derive(Clone, Copy, PartialEq, Eq, Debug, Structural)]
pub struct PurchaseView {
    pub screen: PurchaseScreen,
    pub step: usize,
    pub result_stale: bool,
    pub saved_scenario: Option<u64>,
    pub combo_selected: Option<usize>,
    pub strategy_expanded: Option<usize>,
    pub metric_expanded: Option<usize>,
    pub report_tab: usize,
    /// The point selected on the result's cash path.
    pub path_selected: Option<usize>,
    /// The draft's purchase date, as a day number.
    pub purchase_on: i32,
    /// The draft's down payment, in minor units (its field shows the money
    /// type's writing of it).
    pub down_payment: i64,
}

/// The state a calculation leaves: on the first step that was refused, with
/// everything else unchanged; otherwise the result screen opens on the last
/// step with a fresh, unsaved result on its first tab and nothing selected,
/// the draft's inputs kept.
pub open spec fn after_calculation_of(v: PurchaseView, refused: Option<usize>) -> PurchaseView {
    match refused {
        Some(step) => PurchaseView { step, ..v },
        None => PurchaseView {
            screen: PurchaseScreen::Result,
            step: 3,
            result_stale: false,
            saved_scenario: None,
            combo_selected: None,
            strategy_expanded: None,
            metric_expanded: None,
            report_tab: 0,
            path_selected: None,
            ..v
        },
    }
}

/// The first step, of those validated in order, that was refused.
pub open spec fn first_refused_of(accepted: Seq<bool>) -> Option<usize> {
    if exists|i: int| 0 <= i < accepted.len() && !accepted[i] {
        Some((choose|i: int| 0 <= i < accepted.len() && !accepted[i] && forall|j: int| 0 <= j < i ==> accepted[j]) as usize)
    } else {
        None
    }
}

pub fn first_refused(accepted: &Vec<bool>) -> (r: Option<usize>)
    ensures
        r == first_refused_of(accepted@),
{
    let n = accepted.len();
    for i in 0..n
        invariant
            n == accepted@.len(),
            forall|j: int| 0 <= j < i ==> accepted@[j],
    {
        if !accepted[i] {
            proof {
                let c = choose|c: int| 0 <= c < accepted@.len() && !accepted@[c] && forall|j: int| 0 <= j < c ==> accepted@[j];
                if c < i { assert(accepted@[c]); } else if c > i { assert(accepted@[i as int]); }
            }
            return Some(i);
        }
    }
    None
}

/// Validates every step in order (`accepted` holds each step's outcome as
/// far as validation went) and sets the builder's state accordingly.
pub fn calculate_purchase(v: PurchaseView, accepted: &Vec<bool>) -> (r: PurchaseView)
    ensures
        r == after_calculation_of(v, first_refused_of(accepted@)),
{
    match first_refused(accepted) {
        Some(step) => PurchaseView { step, ..v },
        None => PurchaseView {
            screen: PurchaseScreen::Result,
            step: 3,
            result_stale: false,
            saved_scenario: None,
            combo_selected: None,
            strategy_expanded: None,
            metric_expanded: None,
            report_tab: 0,
            path_selected: None,
            ..v
        },
    }
}

/// Taking a grid cell's inputs: the draft takes the cell's purchase date and
/// down payment, the builder opens again on its first step, and the result is
/// out of date until recalculated; the rest of the draft is kept.
pub fn use_combination_inputs(v: PurchaseView, purchase_on: i32, down_payment: i64) -> (r: PurchaseView)
    ensures
        r == (PurchaseView { screen: PurchaseScreen::Builder, step: 0, result_stale: true, purchase_on, down_payment, ..v }),
{
    PurchaseView { screen: PurchaseScreen::Builder, step: 0, result_stale: true, purchase_on, down_payment, ..v }
}

/// What leaving a flow does.
#[derive(Clone, Copy, PartialEq, Eq, Debug, Structural)]
pub enum Leave {
    /// Leave at once: nothing would be lost.
    Go,
    /// Ask first.
    Confirm,
}

/// Leaving the purchase builder asks first when a name was entered or a
/// result exists.
pub open spec fn leave_purchase_of(name: Seq<char>, has_result: bool) -> Leave {
    if trimmed(name).len() > 0 || has_result { Leave::Confirm } else { Leave::Go }
}

pub fn cancel_purchase(name: &str, has_result: bool) -> (r: Leave)
    ensures
        r == leave_purchase_of(name@, has_result),
{
    let t = trim(name);
    if t.unicode_len() > 0 || has_result { Leave::Confirm } else { Leave::Go }
}

/// How a company route extracts money.
#[derive(Clone, Copy, PartialEq, Eq, Debug, Structural)]
pub enum ExtractionMethod {
    Salary,
    Dividend,
}

/// The route's method from a draft index: the second choice is a dividend,
/// every other a salary.
pub fn route_method(index: usize) -> (r: ExtractionMethod)
    ensures
        r == (if index == 1 { ExtractionMethod::Dividend } else { ExtractionMethod::Salary }),
{
    if index == 1 { ExtractionMethod::Dividend } else { ExtractionMethod::Salary }
}

/// One cell of the result's purchase-date by down-payment grid.
#[derive(Clone, Copy, Debug)]
pub struct GridCell {
    pub purchase_on: i32,
    pub reserve_ok: bool,
}

/// The outcome of a grid cell.
#[derive(Clone, Copy, PartialEq, Eq, Debug, Structural)]
pub enum CellOutcome {
    /// Its purchase date is after the evaluated window: not proven affordable.
    OutsideWindow,
    KeepsReserve,
    BreachesReserve,
}

pub open spec fn cell_outcome_of(c: GridCell, through: int) -> CellOutcome {
    if c.purchase_on > through {
        CellOutcome::OutsideWindow
    } else if c.reserve_ok {
        CellOutcome::KeepsReserve
    } else {
        CellOutcome::BreachesReserve
    }
}

pub fn cell_outcome(c: GridCell, through: i32) -> (r: CellOutcome)
    ensures
        r == cell_outcome_of(c, through as int),
{
    if c.purchase_on > through {
        CellOutcome::OutsideWindow
    } else if c.reserve_ok {
        CellOutcome::KeepsReserve
    } else {
        CellOutcome::BreachesReserve
    }
}

pub open spec fn outcome_label(o: CellOutcome) -> Seq<char> {
    match o {
        CellOutcome::OutsideWindow => "Outside window"@,
        CellOutcome::KeepsReserve => "Keeps reserve"@,
        CellOutcome::BreachesReserve => "Breaches reserve"@,
    }
}

pub fn outcome_label_text(o: CellOutcome) -> (r: String)
    ensures
        r@ == outcome_label(o),
{
    match o {
        CellOutcome::OutsideWindow => String::from_str("Outside window"),
        CellOutcome::KeepsReserve => String::from_str("Keeps reserve"),
        CellOutcome::BreachesReserve => String::from_str("Breaches reserve"),
    }
}

/// How many of the first `k` cells breach the reserve.
pub open spec fn breaching(cells: Seq<GridCell>, k: nat) -> nat
    decreases k,
{
    if k == 0 || k > cells.len() {
        0
    } else {
        breaching(cells, (k - 1) as nat) + if cells[k - 1].reserve_ok { 0nat } else { 1nat }
    }
}

/// How many cells the `keeps the reserve only` filter hides.
pub fn hidden_by_filter(cells: &Vec<GridCell>, only_ok: bool) -> (r: usize)
    ensures
        r == (if only_ok { breaching(cells@, cells@.len()) } else { 0 }),
{
    if !only_ok {
        return 0;
    }
    let n = cells.len();
    let mut count: usize = 0;
    for i in 0..n
        invariant
            n == cells@.len(),
            count == breaching(cells@, i as nat),
            count <= i,
    {
        if !cells[i].reserve_ok {
            count = count + 1;
        }
    }
    count
}

/// The strategy opened in the funding report: the one opened by hand, else
/// the preferred one, else the first when there is one.
pub open spec fn opened_strategy_of(opened: Option<usize>, preferred: Option<usize>, count: nat) -> Option<usize> {
    if opened is Some {
        opened
    } else if preferred is Some {
        preferred
    } else if count == 0 {
        None
    } else {
        Some(0)
    }
}

pub fn opened_strategy(opened: Option<usize>, preferred: Option<usize>, count: usize) -> (r: Option<usize>)
    ensures
        r == opened_strategy_of(opened, preferred, count as nat),
{
    if opened.is_some() {
        opened
    } else if preferred.is_some() {
        preferred
    } else if count == 0 {
        None
    } else {
        Some(0)
    }
}

/// When a goal is reached with the purchase, against the baseline.
pub open spec fn reach_line(reached: Option<i32>) -> Seq<char> {
    match reached {
        Some(d) => calendar_text(d, DatePattern::DayMonthYear),
        None => "Not reached within the window"@,
    }
}

pub fn reach_text(reached: Option<i32>) -> (r: String)
    requires
        reached matches Some(d) ==> valid_day(d as int),
    ensures
        r@ == reach_line(reached),
{
    match reached {
        Some(d) => date_text(d, DatePattern::DayMonthYear),
        None => String::from_str("Not reached within the window"),
    }
}

/// A goal is delayed by the purchase when its delay is more than zero days.
pub fn goal_delayed(delay_days: Option<i64>) -> (r: bool)
    ensures
        r == (delay_days matches Some(d) && d > 0),
{
    match delay_days {
        Some(d) => d > 0,
        None => false,
    }
}

/// The sentence a calculation leaves: whether the plan keeps the reserve in
/// the conservative case, read from the engine's claim, or why it could not
/// be evaluated.
pub open spec fn calculation_note(outcome: Result<(Seq<char>, Seq<char>), Seq<char>>) -> Seq<char> {
    match outcome {
        Ok((name, claim)) => "Calculated “"@ + name + "”: "@ + if contains_seq(claim, "keeps"@) {
            "keeps the reserve in the conservative case."@
        } else {
            "breaches the reserve in the conservative case."@
        },
        Err(err) => "The purchase could not be evaluated: "@ + err,
    }
}

pub fn calculation_note_text(outcome: Result<(&str, &str), &str>) -> (r: String)
    ensures
        r@ == calculation_note(
            match outcome {
                Ok((name, claim)) => Ok((name@, claim@)),
                Err(err) => Err(err@),
            },
        ),
{
    let mut s = String::new();
    match outcome {
        Ok((name, claim)) => {
            push_str(&mut s, "Calculated “");
            push_str(&mut s, name);
            push_str(&mut s, "”: ");
            if contains_text(claim, "keeps") {
                push_str(&mut s, "keeps the reserve in the conservative case.");
            } else {
                push_str(&mut s, "breaches the reserve in the conservative case.");
            }
        },
        Err(err) => {
            push_str(&mut s, "The purchase could not be evaluated: ");
            push_str(&mut s, err);
        },
    }
    proof {
        assert(s@ =~= calculation_note(
            match outcome {
                Ok((name, claim)) => Ok((name@, claim@)),
                Err(err) => Err(err@),
            },
        ));
    }
    s
}

/// The goal sheet's title.
pub open spec fn goal_title(name: Seq<char>) -> Seq<char> {
    "Goal: "@ + name
}

pub fn goal_title_text(name: &str) -> (r: String)
    ensures
        r@ == goal_title(name@),
{
    let mut s = String::new();
    push_str(&mut s, "Goal: ");
    push_str(&mut s, name);
    proof {
        assert(s@ =~= goal_title(name@));
    }
    s
}

/// The label of the row that says when the goal is reached with the plan.
pub open spec fn reached_with(plan: Seq<char>) -> Seq<char> {
    "Reached with “"@ + plan + "”"@
}

pub fn reached_with_text(plan: &str) -> (r: String)
    ensures
        r@ == reached_with(plan@),
{
    let mut s = String::new();
    push_str(&mut s, "Reached with “");
    push_str(&mut s, plan);
    push_str(&mut s, "”");
    proof {
        assert(s@ =~= reached_with(plan@));
    }
    s
}

/// A goal's delay: its days, or `None` when the engine reports no delay.
pub open spec fn delay_line(delay_days: Option<i64>) -> Seq<char> {
    match delay_days {
        Some(d) => signed_decimal(d as int) + " days"@,
        None => "None"@,
    }
}

pub fn delay_line_text(delay_days: Option<i64>) -> (r: String)
    ensures
        r@ == delay_line(delay_days),
{
    match delay_days {
        Some(d) => {
            let mut s = String::new();
            push_signed(&mut s, d);
            push_str(&mut s, " days");
            proof {
                assert(s@ =~= delay_line(delay_days));
            }
            s
        },
        None => "None".to_string(),
    }
}

/// One point of the merged path: a day, the baseline balance and the balance
/// with the purchase, in minor units.
#[derive(Clone, Copy, Debug)]
pub struct MergedPoint {
    pub day: i32,
    pub baseline: i64,
    pub with_purchase: i64,
}

/// A row of the result's values table: the day, both balances and what the
/// purchase changes.
#[derive(Clone, Debug)]
pub struct PathRow {
    pub date: String,
    pub baseline: i64,
    pub with_purchase: i64,
    pub difference: i64,
}

/// Whether a merged point can be tabled: its day names a date and its
/// difference fits the money type.
pub open spec fn point_tabled(p: MergedPoint) -> bool {
    valid_day(p.day as int) && i64::MIN <= p.with_purchase - p.baseline <= i64::MAX
}

/// The row a merged point reads as.
pub open spec fn path_row_of(p: MergedPoint, r: PathRow) -> bool {
    &&& r.date@ == calendar_text(p.day, DatePattern::DayMonthYear)
    &&& r.baseline == p.baseline
    &&& r.with_purchase == p.with_purchase
    &&& r.difference == p.with_purchase - p.baseline
}

/// The rows of the values table, one per point of the merged path, in order.
pub fn prepare_decision_result(points: &Vec<MergedPoint>) -> (rows: Vec<PathRow>)
    requires
        forall|i: int| 0 <= i < points@.len() ==> point_tabled(#[trigger] points@[i]),
    ensures
        rows@.len() == points@.len(),
        forall|i: int| 0 <= i < points@.len() ==> path_row_of(points@[i], #[trigger] rows@[i]),
{
    let mut rows: Vec<PathRow> = Vec::new();
    let n = points.len();
    for i in 0..n
        invariant
            n == points@.len(),
            forall|k: int| 0 <= k < points@.len() ==> point_tabled(#[trigger] points@[k]),
            rows@.len() == i,
            forall|k: int| 0 <= k < i ==> path_row_of(points@[k], #[trigger] rows@[k]),
    {
        let p = points[i];
        assert(point_tabled(points@[i as int]));
        let date = date_text(p.day, DatePattern::DayMonthYear);
        rows.push(PathRow { date, baseline: p.baseline, with_purchase: p.with_purchase, difference: p.with_purchase - p.baseline });
    }
    rows
}

// ----- the builder's funding step ----------------------------------------------

fn text_of(t: &str) -> (r: String)
    ensures
        r@ == t@,
{
    let mut s = String::new();
    push_str(&mut s, t);
    proof {
        assert(s@ =~= t@);
    }
    s
}

/// Whether the source at `i` is allowed: its flag, and allowed when the
/// draft holds no flag for it.
pub open spec fn source_allowed(allowed: Seq<bool>, i: int) -> bool {
    if i < allowed.len() { allowed[i] } else { true }
}

/// How many of the first `k` sources are allowed.
pub open spec fn allowed_before(allowed: Seq<bool>, k: nat) -> nat
    decreases k,
{
    if k == 0 {
        0
    } else {
        allowed_before(allowed, (k - 1) as nat) + if source_allowed(allowed, k - 1) { 1nat } else { 0nat }
    }
}

/// The order in which the search tries the sources: each allowed source's
/// place among the allowed ones, counted from one; none for a source left out.
pub fn source_positions(count: usize, allowed: &Vec<bool>) -> (r: Vec<Option<usize>>)
    ensures
        r@.len() == count,
        forall|i: int| 0 <= i < count ==> #[trigger] r@[i] == if source_allowed(allowed@, i) {
            Some(allowed_before(allowed@, (i + 1) as nat) as usize)
        } else {
            None::<usize>
        },
{
    let mut out: Vec<Option<usize>> = Vec::new();
    let mut order: usize = 0;
    for i in 0..count
        invariant
            out@.len() == i,
            order as nat == allowed_before(allowed@, i as nat),
            order <= i,
            forall|k: int| 0 <= k < i ==> #[trigger] out@[k] == if source_allowed(allowed@, k) {
                Some(allowed_before(allowed@, (k + 1) as nat) as usize)
            } else {
                None::<usize>
            },
    {
        let a = if i < allowed.len() { allowed[i] } else { true };
        if a {
            order = order + 1;
            out.push(Some(order));
        } else {
            out.push(None);
        }
    }
    out
}

/// A personal account as the funding step reads it.
#[derive(Clone, Debug)]
pub struct SourceAccount {
    pub name: String,
    pub is_company_account: bool,
    /// Whether the draft offers it as a source.
    pub offered: bool,
    pub hidden: bool,
    pub liability: bool,
}

/// The accounts the funding step names as unavailable: first the personal
/// accounts it does not offer (and the viewer may see), then the offered
/// ones that are liabilities.
pub open spec fn not_eligible(accounts: Seq<SourceAccount>) -> Seq<Seq<char>>
    decreases accounts.len(),
{
    if accounts.len() == 0 {
        Seq::empty()
    } else {
        let a = accounts.last();
        let prev = not_eligible(accounts.drop_last());
        if !a.is_company_account && !a.offered && !a.hidden {
            prev.push(a.name@ + " — not eligible as a source"@)
        } else {
            prev
        }
    }
}

pub open spec fn liabilities_offered(accounts: Seq<SourceAccount>) -> Seq<Seq<char>>
    decreases accounts.len(),
{
    if accounts.len() == 0 {
        Seq::empty()
    } else {
        let a = accounts.last();
        let prev = liabilities_offered(accounts.drop_last());
        if !a.is_company_account && a.liability && a.offered {
            prev.push(a.name@ + " — a liability; it cannot fund a purchase"@)
        } else {
            prev
        }
    }
}

pub fn unavailable_sources(accounts: &Vec<SourceAccount>) -> (r: Vec<String>)
    ensures
        texts(r@) == not_eligible(accounts@) + liabilities_offered(accounts@),
{
    let mut out: Vec<String> = Vec::new();
    let n = accounts.len();
    for i in 0..n
        invariant
            n == accounts@.len(),
            texts(out@) == not_eligible(accounts@.take(i as int)),
    {
        let a = &accounts[i];
        proof {
            assert(accounts@.take(i + 1).drop_last() =~= accounts@.take(i as int));
        }
        if !a.is_company_account && !a.offered && !a.hidden {
            let mut t = text_of(a.name.as_str());
            push_str(&mut t, " — not eligible as a source");
            let ghost before = texts(out@);
            out.push(t);
            proof {
                assert(texts(out@) =~= before.push(a.name@ + " — not eligible as a source"@));
            }
        }
    }
    proof {
        assert(accounts@.take(n as int) =~= accounts@);
    }
    let ghost first = texts(out@);
    for i in 0..n
        invariant
            n == accounts@.len(),
            first == not_eligible(accounts@),
            texts(out@) == first + liabilities_offered(accounts@.take(i as int)),
    {
        let a = &accounts[i];
        proof {
            assert(accounts@.take(i + 1).drop_last() =~= accounts@.take(i as int));
        }
        if !a.is_company_account && a.liability && a.offered {
            let mut t = text_of(a.name.as_str());
            push_str(&mut t, " — a liability; it cannot fund a purchase");
            let ghost before = texts(out@);
            out.push(t);
            proof {
                assert(texts(out@) =~= before.push(a.name@ + " — a liability; it cannot fund a purchase"@));
            }
        }
    }
    proof {
        assert(accounts@.take(n as int) =~= accounts@);
    }
    out
}

/// A company route's extraction method: its choice on the draft, the first
/// (salary) when the draft holds none.
pub fn route_choice(methods: &Vec<usize>, index: usize) -> (r: ExtractionMethod)
    ensures
        r == if index < methods@.len() && methods@[index as int] == 1 {
            ExtractionMethod::Dividend
        } else {
            ExtractionMethod::Salary
        },
{
    let m = if index < methods.len() { methods[index] } else { 0 };
    route_method(m)
}

/// Whether a company route is allowed: its flag, and not allowed when the
/// draft holds none.
pub fn route_allowed(allowed: &Vec<bool>, index: usize) -> (r: bool)
    ensures
        r == (index < allowed@.len() && allowed@[index as int]),
{
    index < allowed.len() && allowed[index]
}

/// The draft's line under the builder's title.
pub open spec fn draft_line(viewer: Seq<char>) -> Seq<char> {
    "Draft for "@ + viewer + " · kept for this session only, not saved as a scenario or a transaction"@
}

pub fn draft_line_text(viewer: &str) -> (r: String)
    ensures
        r@ == draft_line(viewer@),
{
    let mut s = text_of("Draft for ");
    push_str(&mut s, viewer);
    push_str(&mut s, " · kept for this session only, not saved as a scenario or a transaction");
    proof {
        assert(s@ =~= draft_line(viewer@));
    }
    s
}

/// The command to the result: out of date when the inputs changed since.
pub open spec fn open_result_label(stale: bool) -> Seq<char> {
    if stale { "Result (out of date)"@ } else { "Open result"@ }
}

pub fn open_result_label_text(stale: bool) -> (r: String)
    ensures
        r@ == open_result_label(stale),
{
    if stale { text_of("Result (out of date)") } else { text_of("Open result") }
}

// ----- the result ----------------------------------------------------------------

/// The result's meta line: when, the price, the down payment, how the rest
/// is paid and the window, amounts as the money type writes them.
pub open spec fn result_meta(
    purchase_on: i32,
    price: Seq<char>,
    down: Seq<char>,
    financing: Option<(nat, Seq<char>)>,
    through: i32,
) -> Seq<char> {
    calendar_text(purchase_on, DatePattern::DayMonthYear) + " · Price "@ + price + " · Down payment "@ + down + " · "@
        + (match financing {
        Some((months, monthly)) => decimal(months) + " payments of "@ + monthly,
        None => "paid in full"@,
    }) + " · through "@ + calendar_text(through, DatePattern::DayMonthYear)
}

pub fn result_meta_text(purchase_on: i32, price: &str, down: &str, financing: Option<(u64, &str)>, through: i32) -> (r: String)
    requires
        valid_day(purchase_on as int),
        valid_day(through as int),
    ensures
        r@ == result_meta(
            purchase_on,
            price@,
            down@,
            match financing {
                Some((m, p)) => Some((m as nat, p@)),
                None => None,
            },
            through,
        ),
{
    let mut s = date_text(purchase_on, DatePattern::DayMonthYear);
    push_str(&mut s, " · Price ");
    push_str(&mut s, price);
    push_str(&mut s, " · Down payment ");
    push_str(&mut s, down);
    push_str(&mut s, " · ");
    match financing {
        Some((months, monthly)) => {
            push_decimal(&mut s, months);
            push_str(&mut s, " payments of ");
            push_str(&mut s, monthly);
        },
        None => push_str(&mut s, "paid in full"),
    }
    push_str(&mut s, " · through ");
    let t = date_text(through, DatePattern::DayMonthYear);
    push_str(&mut s, t.as_str());
    proof {
        assert(s@ =~= result_meta(
            purchase_on,
            price@,
            down@,
            match financing {
                Some((m, p)) => Some((m as nat, p@)),
                None => None,
            },
            through,
        ));
    }
    s
}

/// The hint on `Save as scenario`: why it is disabled while the result is out
/// of date, else what it creates.
pub open spec fn save_hint(stale: bool) -> Seq<char> {
    if stale {
        "Recalculate first; the inputs changed"@
    } else {
        "Creates “Decision: <purchase>” with its planned movements"@
    }
}

pub fn save_hint_text(stale: bool) -> (r: String)
    ensures
        r@ == save_hint(stale),
{
    if stale {
        text_of("Recalculate first; the inputs changed")
    } else {
        text_of("Creates “Decision: <purchase>” with its planned movements")
    }
}

/// How many of the first `k` cells keep the reserve inside the window.
pub open spec fn keeping(cells: Seq<GridCell>, through: int, k: nat) -> nat
    decreases k,
{
    if k == 0 || k > cells.len() {
        0
    } else {
        keeping(cells, through, (k - 1) as nat) + if cell_outcome_of(cells[k - 1], through) == CellOutcome::KeepsReserve {
            1nat
        } else {
            0nat
        }
    }
}

/// How many cells keep the reserve: inside the window and kept.
pub fn cells_keeping(cells: &Vec<GridCell>, through: i32) -> (r: usize)
    ensures
        r == keeping(cells@, through as int, cells@.len()),
        r <= cells@.len(),
{
    let n = cells.len();
    let mut count: usize = 0;
    for i in 0..n
        invariant
            n == cells@.len(),
            count == keeping(cells@, through as int, i as nat),
            count <= i,
    {
        if cell_outcome(cells[i], through) == CellOutcome::KeepsReserve {
            count = count + 1;
        }
    }
    count
}

/// The grid's description: how many combinations, how many keep the
/// reserve, and the engine's status of the grid.
pub open spec fn combinations_line(total: nat, keep: nat, status: Seq<char>) -> Seq<char> {
    decimal(total) + " combinations · "@ + decimal(keep) + " keep the reserve · every cell is a full evaluation. "@ + status
}

pub fn combinations_line_text(total: u64, keep: u64, status: &str) -> (r: String)
    ensures
        r@ == combinations_line(total as nat, keep as nat, status@),
{
    let mut s = String::new();
    push_decimal(&mut s, total);
    push_str(&mut s, " combinations · ");
    push_decimal(&mut s, keep);
    push_str(&mut s, " keep the reserve · every cell is a full evaluation. ");
    push_str(&mut s, status);
    proof {
        assert(s@ =~= combinations_line(total as nat, keep as nat, status@));
    }
    s
}

/// The line under the grid while the filter hides combinations.
pub open spec fn filter_hides_note(only_ok: bool, hidden: nat) -> Option<Seq<char>> {
    if only_ok && hidden > 0 { Some(decimal(hidden) + " combinations hidden by the filter."@) } else { None }
}

pub fn filter_hides_note_text(only_ok: bool, hidden: u64) -> (r: Option<String>)
    ensures
        r is Some <==> filter_hides_note(only_ok, hidden as nat) is Some,
        r matches Some(t) ==> filter_hides_note(only_ok, hidden as nat) == Some(t@),
{
    if only_ok && hidden > 0 {
        let mut s = String::new();
        push_decimal(&mut s, hidden);
        push_str(&mut s, " combinations hidden by the filter.");
        proof {
            assert(s@ =~= decimal(hidden as nat) + " combinations hidden by the filter."@);
        }
        Some(s)
    } else {
        None
    }
}

/// A selected cell's reserve condition, with the shortfall as the money type
/// writes it.
pub open spec fn reserve_condition(o: CellOutcome, shortfall: Seq<char>) -> Seq<char> {
    match o {
        CellOutcome::OutsideWindow => "Outside the evaluated window — not proven affordable"@,
        CellOutcome::KeepsReserve => "Kept under the conservative case"@,
        CellOutcome::BreachesReserve => "Breached by "@ + shortfall,
    }
}

pub fn reserve_condition_text(o: CellOutcome, shortfall: &str) -> (r: String)
    ensures
        r@ == reserve_condition(o, shortfall@),
{
    match o {
        CellOutcome::OutsideWindow => text_of("Outside the evaluated window — not proven affordable"),
        CellOutcome::KeepsReserve => text_of("Kept under the conservative case"),
        CellOutcome::BreachesReserve => {
            let mut s = text_of("Breached by ");
            push_str(&mut s, shortfall);
            s
        },
    }
}

/// A selected cell's title: its purchase date and down payment.
pub open spec fn cell_title(purchase_on: i32, down: Seq<char>) -> Seq<char> {
    "Selected: "@ + calendar_text(purchase_on, DatePattern::DayMonthYear) + " · "@ + down + " down"@
}

pub fn cell_title_text(purchase_on: i32, down: &str) -> (r: String)
    requires
        valid_day(purchase_on as int),
    ensures
        r@ == cell_title(purchase_on, down@),
{
    let mut s = text_of("Selected: ");
    let d = date_text(purchase_on, DatePattern::DayMonthYear);
    push_str(&mut s, d.as_str());
    push_str(&mut s, " · ");
    push_str(&mut s, down);
    push_str(&mut s, " down");
    proof {
        assert(s@ =~= cell_title(purchase_on, down@));
    }
    s
}

/// A strategy's reserve constraints: satisfied, or its violations.
pub open spec fn constraints_line(violations: Seq<Seq<char>>) -> Seq<char> {
    "Reserve constraints: "@ + if violations.len() == 0 { "satisfied"@ } else { joined(violations, "; "@) }
}

pub fn constraints_line_text(violations: &Vec<String>) -> (r: String)
    ensures
        r@ == constraints_line(texts(violations@)),
{
    let mut s = text_of("Reserve constraints: ");
    if violations.len() == 0 {
        push_str(&mut s, "satisfied");
    } else {
        let j = join_texts(violations, "; ");
        push_str(&mut s, j.as_str());
    }
    proof {
        assert(s@ =~= constraints_line(texts(violations@)));
    }
    s
}

/// A strategy's caveats, when it has any.
pub open spec fn caveats_line(caveats: Seq<Seq<char>>) -> Option<Seq<char>> {
    if caveats.len() == 0 { None } else { Some("Caveats: "@ + joined(caveats, " "@)) }
}

pub fn caveats_line_text(caveats: &Vec<String>) -> (r: Option<String>)
    ensures
        r is Some <==> caveats_line(texts(caveats@)) is Some,
        r matches Some(t) ==> caveats_line(texts(caveats@)) == Some(t@),
{
    if caveats.len() == 0 {
        return None;
    }
    let mut s = text_of("Caveats: ");
    let j = join_texts(caveats, " ");
    push_str(&mut s, j.as_str());
    proof {
        assert(s@ =~= "Caveats: "@ + joined(texts(caveats@), " "@));
    }
    Some(s)
}

// ----- sentences of the builder and the result -----------------------------------

/// Under the draft: whose money it is and the currency it is in.
pub open spec fn draft_scope(currency: Seq<char>) -> Seq<char> {
    "Household · "@ + currency
}

pub fn draft_scope_text(currency: &str) -> (r: String)
    ensures
        r@ == draft_scope(currency@),
{
    let mut s = String::new();
    push_str(&mut s, "Household · ");
    push_str(&mut s, currency);
    proof { assert(s@ =~= draft_scope(currency@)); }
    s
}

/// Under the draft: how far the plan is evaluated.
pub open spec fn evaluated_through(horizon: i32) -> Seq<char> {
    "Evaluated through "@ + calendar_text(horizon, DatePattern::DayMonthYear)
}

pub fn evaluated_through_text(horizon: i32) -> (r: String)
    requires
        valid_day(horizon as int),
    ensures
        r@ == evaluated_through(horizon),
{
    let mut s = String::new();
    push_str(&mut s, "Evaluated through ");
    let d = date_text(horizon, DatePattern::DayMonthYear);
    push_str(&mut s, d.as_str());
    proof { assert(s@ =~= evaluated_through(horizon)); }
    s
}

/// The description of the purchase's first step.
pub open spec fn purchase_step_description(as_of: i32) -> Seq<char> {
    "The price, when, and the reserve the household must keep throughout. Balances as of "@
        + calendar_text(as_of, DatePattern::DayMonthYear) + "."@
}

pub fn purchase_step_description_text(as_of: i32) -> (r: String)
    requires
        valid_day(as_of as int),
    ensures
        r@ == purchase_step_description(as_of),
{
    let mut s = String::new();
    push_str(&mut s, "The price, when, and the reserve the household must keep throughout. Balances as of ");
    let d = date_text(as_of, DatePattern::DayMonthYear);
    push_str(&mut s, d.as_str());
    push_str(&mut s, ".");
    proof { assert(s@ =~= purchase_step_description(as_of)); }
    s
}

/// Under the recommendation: what it was chosen for and among how many.
pub open spec fn recommendation_note(objective: Seq<char>, candidates: nat, feasible: nat, through: i32) -> Seq<char> {
    "Objective: "@ + objective + " · best among "@ + decimal(candidates) + " tested strategies, "@ + decimal(feasible)
        + " feasible — a finite search, not a global optimum. The verdict is the conservative test through "@
        + calendar_text(through, DatePattern::DayMonthYear) + "; the chart below is the expected path."@
}

pub fn recommendation_note_text(objective: &str, candidates: u64, feasible: u64, through: i32) -> (r: String)
    requires
        valid_day(through as int),
    ensures
        r@ == recommendation_note(objective@, candidates as nat, feasible as nat, through),
{
    let mut s = String::new();
    push_str(&mut s, "Objective: ");
    push_str(&mut s, objective);
    push_str(&mut s, " · best among ");
    push_decimal(&mut s, candidates);
    push_str(&mut s, " tested strategies, ");
    push_decimal(&mut s, feasible);
    push_str(&mut s, " feasible — a finite search, not a global optimum. The verdict is the conservative test through ");
    let d = date_text(through, DatePattern::DayMonthYear);
    push_str(&mut s, d.as_str());
    push_str(&mut s, "; the chart below is the expected path.");
    proof { assert(s@ =~= recommendation_note(objective@, candidates as nat, feasible as nat, through)); }
    s
}

/// The caption of the decision's cash path.
pub open spec fn decision_caption(through: i32) -> Seq<char> {
    "Expected graph · the Conservative reserve test is above · through "@ + calendar_text(through, DatePattern::DayMonthYear)
}

pub fn decision_caption_text(through: i32) -> (r: String)
    requires
        valid_day(through as int),
    ensures
        r@ == decision_caption(through),
{
    let mut s = String::new();
    push_str(&mut s, "Expected graph · the Conservative reserve test is above · through ");
    let d = date_text(through, DatePattern::DayMonthYear);
    push_str(&mut s, d.as_str());
    proof { assert(s@ =~= decision_caption(through)); }
    s
}

/// A strategy's future tax, written, with what it rests on.
pub open spec fn future_tax_line(amount: Seq<char>, note: Seq<char>) -> Seq<char> {
    "Future incremental tax "@ + amount + " — "@ + note
}

pub fn future_tax_line_text(amount: &str, note: &str) -> (r: String)
    ensures
        r@ == future_tax_line(amount@, note@),
{
    let mut s = String::new();
    push_str(&mut s, "Future incremental tax ");
    push_str(&mut s, amount);
    push_str(&mut s, " — ");
    push_str(&mut s, note);
    proof { assert(s@ =~= future_tax_line(amount@, note@)); }
    s
}

/// Under the strategy status: the space searched and what was sought in it.
pub open spec fn search_space_line(space: Seq<char>, objective: Seq<char>) -> Seq<char> {
    "Search space: "@ + space + ". Objective: "@ + objective + ". Best among the tested strategies, not a global optimum."@
}

pub fn search_space_line_text(space: &str, objective: &str) -> (r: String)
    ensures
        r@ == search_space_line(space@, objective@),
{
    let mut s = String::new();
    push_str(&mut s, "Search space: ");
    push_str(&mut s, space);
    push_str(&mut s, ". Objective: ");
    push_str(&mut s, objective);
    push_str(&mut s, ". Best among the tested strategies, not a global optimum.");
    proof { assert(s@ =~= search_space_line(space@, objective@)); }
    s
}

/// The first line of the recommendation record.
pub open spec fn recommendation_record(objective: Seq<char>, candidates: nat, feasible: nat, winner: Seq<char>) -> Seq<char> {
    "Objective "@ + objective + " · "@ + decimal(candidates) + " candidates evaluated · "@ + decimal(feasible)
        + " feasible · winning strategy: "@ + winner
}

pub fn recommendation_record_text(objective: &str, candidates: u64, feasible: u64, winner: &str) -> (r: String)
    ensures
        r@ == recommendation_record(objective@, candidates as nat, feasible as nat, winner@),
{
    let mut s = String::new();
    push_str(&mut s, "Objective ");
    push_str(&mut s, objective);
    push_str(&mut s, " · ");
    push_decimal(&mut s, candidates);
    push_str(&mut s, " candidates evaluated · ");
    push_decimal(&mut s, feasible);
    push_str(&mut s, " feasible · winning strategy: ");
    push_str(&mut s, winner);
    proof { assert(s@ =~= recommendation_record(objective@, candidates as nat, feasible as nat, winner@)); }
    s
}

/// The notice after a combination's inputs are filled into the builder.
pub open spec fn inputs_filled(purchase_on: i32, down: Seq<char>) -> Seq<char> {
    "Purchase date "@ + calendar_text(purchase_on, DatePattern::DayMonthYear) + " and down payment "@ + down
        + " filled in; validate the steps and recalculate."@
}

pub fn inputs_filled_text(purchase_on: i32, down: &str) -> (r: String)
    requires
        valid_day(purchase_on as int),
    ensures
        r@ == inputs_filled(purchase_on, down@),
{
    let mut s = String::new();
    push_str(&mut s, "Purchase date ");
    let d = date_text(purchase_on, DatePattern::DayMonthYear);
    push_str(&mut s, d.as_str());
    push_str(&mut s, " and down payment ");
    push_str(&mut s, down);
    push_str(&mut s, " filled in; validate the steps and recalculate.");
    proof { assert(s@ =~= inputs_filled(purchase_on, down@)); }
    s
}

/// The note at the end of a strategy's row: for a feasible strategy its first
/// caveat, or that it is preferred, or nothing; for an infeasible one its
/// first violated constraint, or nothing.
pub open spec fn strategy_note(feasible: bool, preferred: bool, caveats: Seq<String>, violations: Seq<String>) -> Seq<char> {
    if feasible {
        if caveats.len() > 0 { caveats[0]@ } else if preferred { "Preferred under the stated objective"@ } else { Seq::empty() }
    } else {
        if violations.len() > 0 { violations[0]@ } else { Seq::empty() }
    }
}

pub fn strategy_note_text(feasible: bool, preferred: bool, caveats: &Vec<String>, violations: &Vec<String>) -> (r: String)
    ensures
        r@ == strategy_note(feasible, preferred, caveats@, violations@),
{
    if feasible {
        if caveats.len() > 0 {
            caveats[0].clone()
        } else if preferred {
            String::from_str("Preferred under the stated objective")
        } else {
            String::new()
        }
    } else if violations.len() > 0 {
        violations[0].clone()
    } else {
        String::new()
    }
}

// ----- a goal's sheet ---------------------------------------------------------------

/// A savings goal as the result reports it; the amount comes written.
#[derive(Clone, Debug)]
pub struct GoalInput {
    pub name: String,
    pub amount: String,
    pub target_on: i32,
    pub baseline_reached: Option<i32>,
    pub decision_reached: Option<i32>,
    pub delay_days: Option<i64>,
    /// The engine's sentence on the purchase's effect on the goal.
    pub text: String,
}

/// The read-only sheet of one goal: its title and its rows, label and value.
#[derive(Clone, Debug)]
pub struct GoalSheet {
    pub title: String,
    pub labels: Vec<String>,
    pub values: Vec<String>,
}

pub open spec fn goal_days_valid(g: GoalInput) -> bool {
    &&& valid_day(g.target_on as int)
    &&& (g.baseline_reached matches Some(d) ==> valid_day(d as int))
    &&& (g.decision_reached matches Some(d) ==> valid_day(d as int))
}

pub open spec fn goal_sheet_labels(plan: Seq<char>) -> Seq<Seq<char>> {
    seq!["Amount"@, "Target date"@, "Reached on the baseline"@, reached_with(plan), "Delay"@, "Effect"@]
}

pub open spec fn goal_sheet_values(g: GoalInput) -> Seq<Seq<char>> {
    seq![
        g.amount@,
        calendar_text(g.target_on, DatePattern::DayMonthYear),
        reach_line(g.baseline_reached),
        reach_line(g.decision_reached),
        delay_line(g.delay_days),
        g.text@,
    ]
}

/// The sheet of the goal at `index` among the result's goals, under the
/// plan's name; none when there is no such goal.
pub fn open_goal_sheet(goals: &Vec<GoalInput>, index: usize, plan: &str) -> (r: Option<GoalSheet>)
    requires
        forall|i: int| 0 <= i < goals@.len() ==> goal_days_valid(#[trigger] goals@[i]),
    ensures
        index >= goals@.len() ==> r is None,
        index < goals@.len() ==> (r matches Some(sheet) && {
            &&& sheet.title@ == goal_title(goals@[index as int].name@)
            &&& texts(sheet.labels@) == goal_sheet_labels(plan@)
            &&& texts(sheet.values@) == goal_sheet_values(goals@[index as int])
        }),
{
    if index >= goals.len() {
        return None;
    }
    let g = &goals[index];
    proof { assert(goal_days_valid(goals@[index as int])); }
    let title = goal_title_text(g.name.as_str());
    let mut labels: Vec<String> = Vec::new();
    labels.push(String::from_str("Amount"));
    labels.push(String::from_str("Target date"));
    labels.push(String::from_str("Reached on the baseline"));
    labels.push(reached_with_text(plan));
    labels.push(String::from_str("Delay"));
    labels.push(String::from_str("Effect"));
    let mut values: Vec<String> = Vec::new();
    values.push(g.amount.clone());
    values.push(date_text(g.target_on, DatePattern::DayMonthYear));
    values.push(reach_text(g.baseline_reached));
    values.push(reach_text(g.decision_reached));
    values.push(delay_line_text(g.delay_days));
    values.push(g.text.clone());
    proof {
        assert(texts(labels@) =~= goal_sheet_labels(plan@));
        assert(texts(values@) =~= goal_sheet_values(goals@[index as int]));
    }
    Some(GoalSheet { title, labels, values })
}

// ----- the combinations grid ---------------------------------------------------------

/// A combination of the result's grid: when the purchase is made, the down
/// payment in minor units, and whether the conservative case keeps the reserve.
#[derive(Clone, Copy, Debug)]
pub struct Combination {
    pub purchase_on: i32,
    pub down_payment: i64,
    pub reserve_ok: bool,
}

pub open spec fn combination_dates(g: Seq<Combination>) -> Seq<i32> {
    g.map_values(|c: Combination| c.purchase_on)
}

pub open spec fn combination_amounts(g: Seq<Combination>) -> Seq<i64> {
    g.map_values(|c: Combination| c.down_payment)
}

/// A list with every value that repeats the one right before it left out
/// (what `dedup` leaves).
pub open spec fn without_repeats(s: Seq<i32>) -> Seq<i32>
    decreases s.len(),
{
    if s.len() == 0 {
        Seq::empty()
    } else {
        let p = without_repeats(s.drop_last());
        if s.len() >= 2 && s[s.len() - 2] == s.last() { p } else { p.push(s.last()) }
    }
}

/// The matrix's columns: the distinct down payments, smallest first.
pub open spec fn amount_columns(g: Seq<Combination>, cols: Seq<i64>) -> bool {
    &&& forall|i: int, j: int| 0 <= i < j < cols.len() ==> cols[i] < cols[j]
    &&& forall|x: i64| cols.contains(x) <==> combination_amounts(g).contains(x)
}

pub open spec fn is_match(c: Combination, day: i32, amount: i64) -> bool {
    c.purchase_on == day && c.down_payment == amount
}

/// The first combination of a date and a down payment.
pub open spec fn first_match(g: Seq<Combination>, day: i32, amount: i64) -> Option<int> {
    if exists|i: int| 0 <= i < g.len() && is_match(g[i], day, amount) {
        Some(choose|i: int| 0 <= i < g.len() && is_match(g[i], day, amount) && forall|j: int| 0 <= j < i ==> !is_match(g[j], day, amount))
    } else {
        None
    }
}

/// What a cell of the matrix holds.
#[derive(Clone, Copy, PartialEq, Eq, Debug, Structural)]
pub enum MatrixCell {
    /// The outcome of the combination at this position of the grid.
    Outcome(usize),
    /// A combination that breaches the reserve while only the ones that keep
    /// it are shown.
    HiddenByFilter,
    /// No combination of that date and down payment.
    Missing,
}

pub open spec fn matrix_cell(g: Seq<Combination>, only_ok: bool, day: i32, amount: i64) -> MatrixCell {
    match first_match(g, day, amount) {
        Some(i) => if !only_ok || g[i].reserve_ok { MatrixCell::Outcome(i as usize) } else { MatrixCell::HiddenByFilter },
        None => MatrixCell::Missing,
    }
}

/// The positions the list shows among the first `k` combinations: all, or
/// only those that keep the reserve.
pub open spec fn list_rows(g: Seq<Combination>, only_ok: bool, k: nat) -> Seq<usize>
    decreases k,
{
    if k == 0 || k > g.len() {
        Seq::empty()
    } else {
        let p = list_rows(g, only_ok, (k - 1) as nat);
        if !only_ok || g[k - 1].reserve_ok { p.push((k - 1) as usize) } else { p }
    }
}

/// How the combinations are laid out: a matrix of purchase dates by down
/// payments when there are at most five down payments and the long form is
/// not asked for, a list otherwise.
#[derive(Clone, Debug)]
pub struct ComboLayout {
    pub dates: Vec<i32>,
    pub amounts: Vec<i64>,
    pub matrix: bool,
    /// The matrix, row by row (empty for a list).
    pub cells: Vec<Vec<MatrixCell>>,
    /// The list's rows, by position in the grid (empty for a matrix).
    pub rows: Vec<usize>,
}

fn date_rows(grid: &Vec<Combination>) -> (r: Vec<i32>)
    ensures
        r@ == without_repeats(combination_dates(grid@)),
{
    let mut out: Vec<i32> = Vec::new();
    let n = grid.len();
    for i in 0..n
        invariant
            n == grid@.len(),
            out@ == without_repeats(combination_dates(grid@).take(i as int)),
    {
        let d = grid[i].purchase_on;
        let repeat = i > 0 && grid[i - 1].purchase_on == d;
        if !repeat {
            out.push(d);
        }
        proof {
            let s = combination_dates(grid@).take(i + 1);
            assert(s.drop_last() =~= combination_dates(grid@).take(i as int));
            assert(s.last() == d);
            if i > 0 {
                assert(s[s.len() - 2] == grid@[i - 1].purchase_on);
            }
        }
    }
    proof { assert(combination_dates(grid@).take(n as int) =~= combination_dates(grid@)); }
    out
}

fn amount_columns_of(grid: &Vec<Combination>) -> (r: Vec<i64>)
    ensures
        amount_columns(grid@, r@),
{
    let mut cols: Vec<i64> = Vec::new();
    let n = grid.len();
    for i in 0..n
        invariant
            n == grid@.len(),
            forall|a: int, b: int| 0 <= a < b < cols@.len() ==> cols@[a] < cols@[b],
            forall|x: i64| cols@.contains(x) <==> combination_amounts(grid@).take(i as int).contains(x),
    {
        let a = grid[i].down_payment;
        let mut p: usize = 0;
        while p < cols.len() && cols[p] < a
            invariant
                p <= cols@.len(),
                forall|q: int| 0 <= q < p ==> cols@[q] < a,
            decreases cols@.len() - p,
        {
            p = p + 1;
        }
        let ghost before = cols@;
        let ghost t0 = combination_amounts(grid@).take(i as int);
        let ghost t1 = combination_amounts(grid@).take(i + 1);
        proof {
            assert(t1 =~= t0.push(a));
        }
        if p < cols.len() && cols[p] == a {
            proof {
                assert forall|x: i64| cols@.contains(x) <==> t1.contains(x) by {
                    if x == a {
                        assert(cols@[p as int] == a);
                        assert(t1[i as int] == a);
                    }
                    if t1.contains(x) && x != a {
                        let k = choose|k: int| 0 <= k < t1.len() && t1[k] == x;
                        assert(k < i);
                        assert(t0[k] == x);
                    }
                    if t0.contains(x) {
                        let k = choose|k: int| 0 <= k < t0.len() && t0[k] == x;
                        assert(t1[k] == x);
                    }
                }
            }
        } else {
            cols.insert(p, a);
            proof {
                assert(cols@ == before.insert(p as int, a));
                assert forall|u: int, v: int| 0 <= u < v < cols@.len() implies cols@[u] < cols@[v] by {
                    if v < p {
                        assert(cols@[u] == before[u] && cols@[v] == before[v]);
                    } else if v == p {
                        assert(cols@[u] == before[u]);
                    } else if u < p {
                        assert(cols@[u] == before[u] && cols@[v] == before[v - 1]);
                        assert(before[v - 1] >= before[p as int]);
                    } else if u == p {
                        assert(cols@[v] == before[v - 1]);
                        assert(before[p as int] > a);
                        assert(before[v - 1] >= before[p as int]);
                    } else {
                        assert(cols@[u] == before[u - 1] && cols@[v] == before[v - 1]);
                    }
                }
                assert forall|x: i64| cols@.contains(x) <==> t1.contains(x) by {
                    if cols@.contains(x) {
                        let k = choose|k: int| 0 <= k < cols@.len() && cols@[k] == x;
                        if k < p {
                            assert(before[k] == x);
                            assert(before.contains(x));
                        } else if k > p {
                            assert(before[k - 1] == x);
                            assert(before.contains(x));
                        }
                        if x != a {
                            let m = choose|m: int| 0 <= m < t0.len() && t0[m] == x;
                            assert(t1[m] == x);
                        } else {
                            assert(t1[i as int] == a);
                        }
                    }
                    if t1.contains(x) {
                        let k = choose|k: int| 0 <= k < t1.len() && t1[k] == x;
                        if k == i {
                            assert(cols@[p as int] == a);
                        } else {
                            assert(t0[k] == x);
                            assert(before.contains(x));
                            let m = choose|m: int| 0 <= m < before.len() && before[m] == x;
                            if m < p {
                                assert(cols@[m] == x);
                            } else {
                                assert(cols@[m + 1] == x);
                            }
                        }
                    }
                }
            }
        }
    }
    proof { assert(combination_amounts(grid@).take(n as int) =~= combination_amounts(grid@)); }
    cols
}

fn find_combination(grid: &Vec<Combination>, day: i32, amount: i64) -> (r: Option<usize>)
    ensures
        match first_match(grid@, day, amount) {
            Some(i) => r == Some(i as usize),
            None => r is None,
        },
        r matches Some(k) ==> k < grid@.len() && is_match(grid@[k as int], day, amount)
            && first_match(grid@, day, amount) == Some(k as int),
{
    let n = grid.len();
    for i in 0..n
        invariant
            n == grid@.len(),
            forall|j: int| 0 <= j < i ==> !is_match(grid@[j], day, amount),
    {
        if grid[i].purchase_on == day && grid[i].down_payment == amount {
            proof {
                assert(is_match(grid@[i as int], day, amount));
                let c = choose|c: int| 0 <= c < grid@.len() && is_match(grid@[c], day, amount) && forall|j: int| 0 <= j < c ==> !is_match(grid@[j], day, amount);
                if c < i {
                    assert(!is_match(grid@[c], day, amount));
                } else if c > i {
                    assert(!is_match(grid@[i as int], day, amount));
                }
            }
            return Some(i);
        }
    }
    None
}

fn matrix_cell_of(grid: &Vec<Combination>, only_ok: bool, day: i32, amount: i64) -> (r: MatrixCell)
    ensures
        r == matrix_cell(grid@, only_ok, day, amount),
{
    match find_combination(grid, day, amount) {
        Some(k) => if !only_ok || grid[k].reserve_ok { MatrixCell::Outcome(k) } else { MatrixCell::HiddenByFilter },
        None => MatrixCell::Missing,
    }
}

pub fn combination_layout(grid: &Vec<Combination>, long: bool, only_ok: bool) -> (r: ComboLayout)
    ensures
        r.dates@ == without_repeats(combination_dates(grid@)),
        amount_columns(grid@, r.amounts@),
        r.matrix == (grid@.len() > 0 && !long && r.amounts@.len() <= 5),
        r.matrix ==> r.cells@.len() == r.dates@.len() && forall|i: int| 0 <= i < r.dates@.len() ==> {
            &&& (#[trigger] r.cells@[i])@.len() == r.amounts@.len()
            &&& forall|j: int| 0 <= j < r.amounts@.len() ==> r.cells@[i]@[j] == matrix_cell(grid@, only_ok, r.dates@[i], r.amounts@[j])
        },
        !r.matrix ==> r.cells@.len() == 0,
        r.rows@ == if grid@.len() > 0 && !r.matrix { list_rows(grid@, only_ok, grid@.len()) } else { Seq::<usize>::empty() },
{
    let dates = date_rows(grid);
    let amounts = amount_columns_of(grid);
    let matrix = grid.len() > 0 && !long && amounts.len() <= 5;
    let mut cells: Vec<Vec<MatrixCell>> = Vec::new();
    let mut rows: Vec<usize> = Vec::new();
    if matrix {
        let nd = dates.len();
        let na = amounts.len();
        for i in 0..nd
            invariant
                nd == dates@.len(),
                na == amounts@.len(),
                cells@.len() == i,
                forall|k: int| 0 <= k < i ==> {
                    &&& (#[trigger] cells@[k])@.len() == na
                    &&& forall|j: int| 0 <= j < na ==> cells@[k]@[j] == matrix_cell(grid@, only_ok, dates@[k], amounts@[j])
                },
        {
            let mut row: Vec<MatrixCell> = Vec::new();
            for j in 0..na
                invariant
                    nd == dates@.len(),
                    na == amounts@.len(),
                    i < nd,
                    row@.len() == j,
                    forall|m: int| 0 <= m < j ==> #[trigger] row@[m] == matrix_cell(grid@, only_ok, dates@[i as int], amounts@[m]),
            {
                let cell = matrix_cell_of(grid, only_ok, dates[i], amounts[j]);
                row.push(cell);
            }
            cells.push(row);
        }
    } else if grid.len() > 0 {
        let n = grid.len();
        for k in 0..n
            invariant
                n == grid@.len(),
                rows@ == list_rows(grid@, only_ok, k as nat),
        {
            if !only_ok || grid[k].reserve_ok {
                rows.push(k);
            }
        }
    }
    ComboLayout { dates, amounts, matrix, cells, rows }
}

/// A combination's reserve shortfall, when there is one.
pub open spec fn shortfall_fact(positive: bool, shortfall: Seq<char>) -> Seq<char> {
    if positive { shortfall } else { "None"@ }
}

pub fn shortfall_fact_text(positive: bool, shortfall: &str) -> (r: String)
    ensures
        r@ == shortfall_fact(positive, shortfall@),
{
    if positive { String::from_str(shortfall) } else { String::from_str("None") }
}

/// Under the best combination: the objective it is best under.
pub open spec fn best_note(objective: Seq<char>) -> Seq<char> {
    "Best on the specified grid under “"@ + objective + "”."@
}

pub fn best_note_text(objective: &str) -> (r: String)
    ensures
        r@ == best_note(objective@),
{
    let mut s = String::new();
    push_str(&mut s, "Best on the specified grid under “");
    push_str(&mut s, objective);
    push_str(&mut s, "”.");
    proof { assert(s@ =~= best_note(objective@)); }
    s
}

/// The financing of a draft: the monthly payment the engine computes, the
/// amount financed, the term and the nominal rate from basis points.
pub open spec fn financing_line(monthly: Seq<char>, financed: Seq<char>, months: nat, rate_basis_points: nat) -> Seq<char> {
    monthly + " of "@ + financed + " over "@ + decimal(months) + " months at "@ + crate::text::percent(rate_basis_points)
}

pub fn financing_line_text(monthly: &str, financed: &str, months: u32, rate_basis_points: u32) -> (r: String)
    ensures
        r@ == financing_line(monthly@, financed@, months as nat, rate_basis_points as nat),
{
    let mut s = String::new();
    push_str(&mut s, monthly);
    push_str(&mut s, " of ");
    push_str(&mut s, financed);
    push_str(&mut s, " over ");
    push_decimal(&mut s, months as u64);
    push_str(&mut s, " months at ");
    let p = crate::text::percent_text(rate_basis_points);
    push_str(&mut s, p.as_str());
    proof { assert(s@ =~= financing_line(monthly@, financed@, months as nat, rate_basis_points as nat)); }
    s
}

/// One sample of the decision chart: the day's label, the baseline, the path
/// with the purchase, and the reserve, in minor units.
#[derive(Clone, Debug)]
pub struct DecisionSample {
    pub label: String,
    pub baseline: i64,
    pub decision: i64,
    pub reserve: i64,
}

/// The decision chart's sample of a merged point (`scenario` being the path
/// with the purchase), against the plan's reserve.
pub open spec fn decision_sample_of(p: ComparedPoint, reserve: i64, s: DecisionSample) -> bool {
    s.label@ == calendar_text(p.day, DatePattern::DayMonth) && s.baseline == p.baseline && s.decision == p.scenario
        && s.reserve == reserve
}

/// The decision chart: one sample per point of the merged path, in order.
pub fn decision_samples(path: &Vec<ComparedPoint>, reserve: i64) -> (chart: Vec<DecisionSample>)
    requires
        forall|i: int| 0 <= i < path@.len() ==> valid_day(#[trigger] path@[i].day as int),
    ensures
        chart@.len() == path@.len(),
        forall|i: int| 0 <= i < path@.len() ==> decision_sample_of(path@[i], reserve, #[trigger] chart@[i]),
{
    let mut chart: Vec<DecisionSample> = Vec::new();
    let n = path.len();
    for i in 0..n
        invariant
            n == path@.len(),
            forall|k: int| 0 <= k < path@.len() ==> valid_day(#[trigger] path@[k].day as int),
            chart@.len() == i,
            forall|k: int| 0 <= k < i ==> decision_sample_of(path@[k], reserve, #[trigger] chart@[k]),
    {
        let p = path[i];
        assert(valid_day(path@[i as int].day as int));
        let label = date_text(p.day, DatePattern::DayMonth);
        chart.push(DecisionSample { label, baseline: p.baseline, decision: p.scenario, reserve });
    }
    chart
}

/// Whether every character of a text is a decimal digit.
pub open spec fn all_digits(s: Seq<char>) -> bool {
    forall|i: int| 0 <= i < s.len() ==> '0' <= #[trigger] s[i] && s[i] <= '9'
}

/// The number a text of decimal digits writes.
pub open spec fn digits_value(s: Seq<char>) -> int
    decreases s.len(),
{
    if s.len() == 0 { 0 } else { digits_value(s.drop_last()) * 10 + (s.last() as int - '0' as int) }
}

/// The longest term a financing may run, in months.
pub const LONGEST_TERM: u32 = 480;

/// The term the financing step reads from its months field: the field's
/// text without surrounding white space, read as a whole number the way
/// `str::parse` reads one (an optional `+`, then decimal digits), and kept
/// only from one month to forty years. Anything else gives no preview.
pub open spec fn term_months_of(field: Seq<char>) -> Option<u32> {
    let t = trimmed(field);
    let d = if t.len() > 0 && t[0] == '+' { t.drop_first() } else { t };
    if d.len() > 0 && all_digits(d) && 1 <= digits_value(d) <= LONGEST_TERM {
        Some(digits_value(d) as u32)
    } else {
        None
    }
}

pub fn term_months(field: &str) -> (r: Option<u32>)
    ensures
        r == term_months_of(field@),
{
    let t = trim(field);
    let ts = t.as_str();
    let n = ts.unicode_len();
    let start: usize = if n > 0 && ts.get_char(0) == '+' { 1 } else { 0 };
    let ghost d = if ts@.len() > 0 && ts@[0] == '+' { ts@.drop_first() } else { ts@ };
    assert(d =~= ts@.subrange(start as int, n as int));
    if start == n {
        return None;
    }
    // The value so far, held at one past the longest term once it passes it.
    let mut v: u32 = 0;
    let mut k: usize = start;
    while k < n
        invariant
            n == ts@.len(),
            ts@ == trimmed(field@),
            d == (if ts@.len() > 0 && ts@[0] == '+' { ts@.drop_first() } else { ts@ }),
            start <= k <= n,
            d =~= ts@.subrange(start as int, n as int),
            all_digits(d.take(k - start)),
            v == if digits_value(d.take(k - start)) <= LONGEST_TERM { digits_value(d.take(k - start)) } else { LONGEST_TERM + 1 },
        decreases n - k,
    {
        let c = ts.get_char(k);
        let ghost before = d.take(k - start);
        let ghost after = d.take(k + 1 - start);
        assert(after.drop_last() =~= before);
        assert(after.last() == c);
        if !('0' <= c && c <= '9') {
            assert(d[k - start] == ts@[k as int]);
            assert(!all_digits(d));
            return None;
        }
        let digit: u32 = (c as u32) - ('0' as u32);
        let w: u32 = v * 10 + digit;
        v = if w <= LONGEST_TERM { w } else { LONGEST_TERM + 1 };
        k = k + 1;
        assert(all_digits(after)) by {
            assert forall|i: int| 0 <= i < after.len() implies '0' <= #[trigger] after[i] && after[i] <= '9' by {
                if i < before.len() {
                    assert(after[i] == before[i]);
                }
            }
        }
    }
    assert(d.take(n - start) =~= d);
    if v >= 1 && v <= LONGEST_TERM { Some(v) } else { None }
}

/// A funding source's free money and its floor, or a dash when it has none.
pub open spec fn free_and_floor(free: Seq<char>, floor: Option<Seq<char>>) -> Seq<char> {
    free + " free · floor "@ + match floor { Some(f) => f, None => "—"@ }
}

pub fn free_and_floor_text(free: &str, floor: Option<&str>) -> (r: String)
    ensures
        r@ == free_and_floor(free@, match floor { Some(f) => Some(f@), None => None }),
{
    let mut s = String::new();
    push_str(&mut s, free);
    push_str(&mut s, " free · floor ");
    match floor {
        Some(f) => push_str(&mut s, f),
        None => push_str(&mut s, "—"),
    }
    proof { assert(s@ =~= free_and_floor(free@, match floor { Some(f) => Some(f@), None => None })); }
    s
}

/// A funding step's ending balance against its floor, with its note.
pub open spec fn step_balance(ending: Seq<char>, floor: Seq<char>, note: Seq<char>) -> Seq<char> {
    ending + " / floor "@ + floor + if note.len() == 0 { Seq::empty() } else { " · "@ + note }
}

pub fn step_balance_text(ending: &str, floor: &str, note: &str) -> (r: String)
    ensures
        r@ == step_balance(ending@, floor@, note@),
{
    let mut s = String::new();
    push_str(&mut s, ending);
    push_str(&mut s, " / floor ");
    push_str(&mut s, floor);
    if note.unicode_len() > 0 {
        push_str(&mut s, " · ");
        push_str(&mut s, note);
    }
    proof { assert(s@ =~= step_balance(ending@, floor@, note@)); }
    s
}

/// The description of the financing step: the remainder to finance, or zero
/// when the down payment covers the price.
pub open spec fn remainder_description(positive: bool, remainder: Seq<char>, zero: Seq<char>) -> Seq<char> {
    "The remainder ("@ + (if positive { remainder } else { zero })
        + ") as a monthly annuity: term, nominal annual rate, first instalment and the paying account. Untick to pay the full price at once."@
}

/// `remainder` and `zero` come written by the money type.
pub fn remainder_description_text(positive: bool, remainder: &str, zero: &str) -> (r: String)
    ensures
        r@ == remainder_description(positive, remainder@, zero@),
{
    let mut s = String::new();
    push_str(&mut s, "The remainder (");
    if positive {
        push_str(&mut s, remainder);
    } else {
        push_str(&mut s, zero);
    }
    push_str(&mut s, ") as a monthly annuity: term, nominal annual rate, first instalment and the paying account. Untick to pay the full price at once.");
    proof { assert(s@ =~= remainder_description(positive, remainder@, zero@)); }
    s
}

// ----- the purchase summary beside the builder -----------------------------------------

/// A funding source or company route of the draft: its name and whether it is allowed.
#[derive(Clone, Debug)]
pub struct DraftSource {
    pub name: String,
    pub allowed: bool,
}

/// The draft as its summary reads it; amounts come written.
#[derive(Clone, Debug)]
pub struct DraftSummaryInput {
    pub step: usize,
    pub name: String,
    pub price_positive: bool,
    pub price: String,
    pub purchase_on: i32,
    pub reserve: String,
    pub window_from: i32,
    pub window_to: i32,
    pub objective: String,
    pub down_payment: String,
    pub sources: Vec<DraftSource>,
    pub routes: Vec<DraftSource>,
    /// The financing line, when the draft finances the remainder.
    pub financing: Option<String>,
}

pub open spec fn summary_days_valid(d: DraftSummaryInput) -> bool {
    valid_day(d.purchase_on as int) && valid_day(d.window_from as int) && valid_day(d.window_to as int)
}

/// The names of the allowed entries, in order.
pub open spec fn allowed_names(s: Seq<DraftSource>) -> Seq<Seq<char>>
    decreases s.len(),
{
    if s.len() == 0 {
        Seq::empty()
    } else {
        let p = allowed_names(s.drop_last());
        if s.last().allowed { p.push(s.last().name@) } else { p }
    }
}

/// The summary's items, label and value: only values that passed their step.
pub open spec fn summary_items(d: DraftSummaryInput) -> Seq<(Seq<char>, Seq<char>)> {
    let what: Seq<(Seq<char>, Seq<char>)> = if d.name@.len() > 0 { seq![("What"@, d.name@)] } else { Seq::empty() };
    let priced: Seq<(Seq<char>, Seq<char>)> = if d.price_positive {
        seq![
            ("Price"@, d.price@),
            ("Purchase date"@, calendar_text(d.purchase_on, DatePattern::DayMonthYear)),
            ("Reserve to keep"@, d.reserve@),
            ("Compare months"@, calendar_text(d.window_from, DatePattern::MonthYear) + " – "@ + calendar_text(d.window_to, DatePattern::MonthYear)),
            ("Objective"@, d.objective@),
        ]
    } else {
        Seq::empty()
    };
    let funded: Seq<(Seq<char>, Seq<char>)> = if d.step >= 2 {
        seq![
            ("Down payment"@, d.down_payment@),
            ("Funding"@, joined(allowed_names(d.sources@) + allowed_names(d.routes@), ", "@)),
        ]
    } else {
        Seq::empty()
    };
    let recurring: Seq<(Seq<char>, Seq<char>)> = if d.step >= 3 {
        seq![("Recurring"@, match d.financing { Some(f) => f@, None => "Paid in full"@ })]
    } else {
        Seq::empty()
    };
    what + priced + funded + recurring
}

fn allowed_list(s: &Vec<DraftSource>, out: &mut Vec<String>)
    ensures
        texts(final(out)@) == texts(old(out)@) + allowed_names(s@),
{
    let n = s.len();
    let ghost start = texts(out@);
    for i in 0..n
        invariant
            n == s@.len(),
            texts(out@) == start + allowed_names(s@.take(i as int)),
    {
        proof { assert(s@.take(i + 1).drop_last() =~= s@.take(i as int)); }
        if s[i].allowed {
            let ghost before = out@;
            out.push(s[i].name.clone());
            proof {
                assert(out@ == before.push(s@[i as int].name));
                assert(texts(out@) =~= texts(before).push(s@[i as int].name@));
                assert(s@.take(i + 1).last() == s@[i as int]);
            }
        } else {
            proof { assert(s@.take(i + 1).last() == s@[i as int]); }
        }
        proof {
            assert(texts(out@) =~= start + allowed_names(s@.take(i + 1)));
        }
    }
    proof { assert(s@.take(n as int) =~= s@); }
}

fn push_item(labels: &mut Vec<String>, values: &mut Vec<String>, label: &str, value: String)
    ensures
        texts(final(labels)@) == texts(old(labels)@).push(label@),
        texts(final(values)@) == texts(old(values)@).push(value@),
{
    labels.push(label.to_string());
    values.push(value);
    proof {
        assert(texts(labels@) =~= texts(old(labels)@).push(label@));
        assert(texts(values@) =~= texts(old(values)@).push(value@));
    }
}

/// The purchase summary beside the builder, as its labels and values.
pub fn purchase_summary(d: &DraftSummaryInput) -> (r: (Vec<String>, Vec<String>))
    requires
        summary_days_valid(*d),
    ensures
        texts(r.0@) == summary_items(*d).map_values(|it: (Seq<char>, Seq<char>)| it.0),
        texts(r.1@) == summary_items(*d).map_values(|it: (Seq<char>, Seq<char>)| it.1),
{
    let mut labels: Vec<String> = Vec::new();
    let mut values: Vec<String> = Vec::new();
    if d.name.unicode_len() > 0 {
        push_item(&mut labels, &mut values, "What", d.name.clone());
    }
    if d.price_positive {
        push_item(&mut labels, &mut values, "Price", d.price.clone());
        push_item(&mut labels, &mut values, "Purchase date", date_text(d.purchase_on, DatePattern::DayMonthYear));
        push_item(&mut labels, &mut values, "Reserve to keep", d.reserve.clone());
        let mut months = date_text(d.window_from, DatePattern::MonthYear);
        push_str(&mut months, " – ");
        let to = date_text(d.window_to, DatePattern::MonthYear);
        push_str(&mut months, to.as_str());
        push_item(&mut labels, &mut values, "Compare months", months);
        push_item(&mut labels, &mut values, "Objective", d.objective.clone());
    }
    if d.step >= 2 {
        push_item(&mut labels, &mut values, "Down payment", d.down_payment.clone());
        let mut names: Vec<String> = Vec::new();
        allowed_list(&d.sources, &mut names);
        allowed_list(&d.routes, &mut names);
        let funding = join_texts(&names, ", ");
        push_item(&mut labels, &mut values, "Funding", funding);
    }
    if d.step >= 3 {
        let recurring = match &d.financing {
            Some(f) => f.clone(),
            None => String::from_str("Paid in full"),
        };
        push_item(&mut labels, &mut values, "Recurring", recurring);
    }
    proof {
        assert(texts(labels@) =~= summary_items(*d).map_values(|it: (Seq<char>, Seq<char>)| it.0));
        assert(texts(values@) =~= summary_items(*d).map_values(|it: (Seq<char>, Seq<char>)| it.1));
    }
    (labels, values)
}

// ----- the affordability metrics -------------------------------------------------------

/// The metrics the headline grid shows, in this order, when the result states them.
pub open spec fn lead_metric(k: int) -> Seq<char> {
    if k == 0 {
        "Immediate cash after purchase"@
    } else if k == 1 {
        "Emergency reserve remaining"@
    } else if k == 2 {
        "Monthly repayment"@
    } else {
        "Total financing cost"@
    }
}

pub open spec fn is_lead_metric(name: Seq<char>) -> bool {
    exists|k: int| 0 <= k < 4 && name == lead_metric(k)
}

/// The first metric with a name.
pub open spec fn first_named(names: Seq<String>, name: Seq<char>) -> Option<int> {
    if exists|i: int| 0 <= i < names.len() && names[i]@ == name {
        Some(choose|i: int| 0 <= i < names.len() && names[i]@ == name && forall|j: int| 0 <= j < i ==> names[j]@ != name)
    } else {
        None
    }
}

/// The headline cells among the first `k` lead metrics: each one the result
/// states, at its first position.
pub open spec fn lead_cells(names: Seq<String>, k: nat) -> Seq<usize>
    decreases k,
{
    if k == 0 {
        Seq::empty()
    } else {
        let p = lead_cells(names, (k - 1) as nat);
        match first_named(names, lead_metric(k - 1)) {
            Some(i) => p.push(i as usize),
            None => p,
        }
    }
}

/// The table's rows among the first `k` metrics: those not in the headline grid.
pub open spec fn other_metrics(names: Seq<String>, k: nat) -> Seq<usize>
    decreases k,
{
    if k == 0 || k > names.len() {
        Seq::empty()
    } else {
        let p = other_metrics(names, (k - 1) as nat);
        if is_lead_metric(names[k - 1]@) { p } else { p.push((k - 1) as usize) }
    }
}

fn lead_metric_text(k: usize) -> (r: &'static str)
    requires
        k < 4,
    ensures
        r@ == lead_metric(k as int),
{
    if k == 0 {
        "Immediate cash after purchase"
    } else if k == 1 {
        "Emergency reserve remaining"
    } else if k == 2 {
        "Monthly repayment"
    } else {
        "Total financing cost"
    }
}

fn find_named(names: &Vec<String>, name: &str) -> (r: Option<usize>)
    ensures
        match first_named(names@, name@) {
            Some(i) => r == Some(i as usize),
            None => r is None,
        },
{
    let n = names.len();
    for i in 0..n
        invariant
            n == names@.len(),
            forall|j: int| 0 <= j < i ==> names@[j]@ != name@,
    {
        if crate::text::same_text(names[i].as_str(), name) {
            proof {
                assert(0 <= i < names@.len() && names@[i as int]@ == name@ && forall|j: int| 0 <= j < i ==> names@[j]@ != name@);
                let c = choose|c: int| 0 <= c < names@.len() && names@[c]@ == name@ && forall|j: int| 0 <= j < c ==> names@[j]@ != name@;
                if c < i {
                    assert(names@[c]@ != name@);
                } else if c > i {
                    assert(names@[i as int]@ != name@);
                }
            }
            return Some(i);
        }
    }
    None
}

/// The affordability report's layout: the headline cells, in the lead order,
/// and the table's rows, in the result's order.
pub fn metric_layout(names: &Vec<String>) -> (r: (Vec<usize>, Vec<usize>))
    ensures
        r.0@ == lead_cells(names@, 4),
        r.1@ == other_metrics(names@, names@.len()),
{
    let mut lead: Vec<usize> = Vec::new();
    for k in 0..4
        invariant
            lead@ == lead_cells(names@, k as nat),
    {
        let name = lead_metric_text(k);
        match find_named(names, name) {
            Some(i) => lead.push(i),
            None => {},
        }
    }
    let mut rest: Vec<usize> = Vec::new();
    let n = names.len();
    for i in 0..n
        invariant
            n == names@.len(),
            rest@ == other_metrics(names@, i as nat),
    {
        let mut leading = false;
        for k in 0..4
            invariant
                i < n,
                n == names@.len(),
                leading == exists|m: int| 0 <= m < k && names@[i as int]@ == lead_metric(m),
        {
            let name = lead_metric_text(k);
            if crate::text::same_text(names[i].as_str(), name) {
                leading = true;
            }
        }
        if !leading {
            rest.push(i);
        }
    }
    (lead, rest)
}

// ----- the result's basis -----------------------------------------------------------------

/// An assumption as the result's basis reads it: its text, and whom it is
/// private to.
#[derive(Clone, Debug)]
pub struct BasisAssumption {
    pub text: String,
    pub private_to: Option<u64>,
}

/// Whether the basis lists an assumption: the viewer may see it, and a line
/// of the engine's statement names its text.
pub open spec fn in_basis(a: BasisAssumption, lines: Seq<String>, viewer: u64) -> bool {
    (a.private_to matches Some(p) ==> p == viewer) && exists|j: int| 0 <= j < lines.len() && contains_seq(lines[j]@, a.text@)
}

pub open spec fn basis_positions(s: Seq<BasisAssumption>, lines: Seq<String>, viewer: u64, k: nat) -> Seq<usize>
    decreases k,
{
    if k == 0 || k > s.len() {
        Seq::empty()
    } else {
        let p = basis_positions(s, lines, viewer, (k - 1) as nat);
        if in_basis(s[k - 1], lines, viewer) { p.push((k - 1) as usize) } else { p }
    }
}

pub open spec fn hidden_from(a: BasisAssumption, viewer: u64) -> bool {
    match a.private_to {
        Some(p) => p != viewer,
        None => false,
    }
}

fn named_by_statement(lines: &Vec<String>, text: &str) -> (r: bool)
    ensures
        r == exists|j: int| 0 <= j < lines@.len() && contains_seq(lines@[j]@, text@),
{
    let n = lines.len();
    for j in 0..n
        invariant
            n == lines@.len(),
            forall|m: int| 0 <= m < j ==> !contains_seq(lines@[m]@, text@),
    {
        if contains_text(lines[j].as_str(), text) {
            return true;
        }
    }
    false
}

/// The assumptions the basis lists, by position, and whether some are
/// withheld from the viewer.
pub fn basis_assumptions(s: &Vec<BasisAssumption>, lines: &Vec<String>, viewer: u64) -> (r: (Vec<usize>, bool))
    ensures
        r.0@ == basis_positions(s@, lines@, viewer, s@.len()),
        r.1 == exists|i: int| 0 <= i < s@.len() && hidden_from(#[trigger] s@[i], viewer),
{
    let mut out: Vec<usize> = Vec::new();
    let mut hidden = false;
    let n = s.len();
    for i in 0..n
        invariant
            n == s@.len(),
            out@ == basis_positions(s@, lines@, viewer, i as nat),
            hidden == exists|j: int| 0 <= j < i && hidden_from(#[trigger] s@[j], viewer),
    {
        let (visible, other) = match s[i].private_to {
            Some(p) => (p == viewer, p != viewer),
            None => (true, false),
        };
        if visible && named_by_statement(lines, s[i].text.as_str()) {
            out.push(i);
        }
        proof {
            if other {
                assert(hidden_from(s@[i as int], viewer));
            }
            if hidden {
                let j = choose|j: int| 0 <= j < i && hidden_from(#[trigger] s@[j], viewer);
                assert(0 <= j < i + 1);
            }
        }
        hidden = hidden || other;
    }
    (out, hidden)
}

} // verus!
