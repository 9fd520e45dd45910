//! Rules: the register's counts and sentences, which rule decisions a rule's
//! detail and the activity report list, the selection and tab state of the
//! rule screens, leaving the create-rule flow, changing the tie-break, and
//! the sentences of a rule's simulation and reports.

use vstd::prelude::*;
use crate::decisions::Leave;
use crate::text::{
    DatePattern, calendar_text, date_text, decimal, joined, join_texts, push_decimal, push_str, texts, trim,
    trimmed, valid_day,
};

verus! {

// ----- the register ------------------------------------------------------------

/// How many of the first `k` rules are enabled.
pub open spec fn enabled_among(enabled: Seq<bool>, k: nat) -> nat
    decreases k,
{
    if k == 0 || k > enabled.len() {
        0
    } else {
        enabled_among(enabled, (k - 1) as nat) + if enabled[k - 1] { 1nat } else { 0nat }
    }
}

proof fn enabled_among_bounded(enabled: Seq<bool>, k: nat)
    requires
        k <= enabled.len(),
    ensures
        enabled_among(enabled, k) <= k,
    decreases k,
{
    if k > 0 {
        enabled_among_bounded(enabled, (k - 1) as nat);
    }
}

/// How many rules are enabled.
pub fn enabled_count(enabled: &Vec<bool>) -> (r: usize)
    ensures
        r == enabled_among(enabled@, enabled@.len()),
        r <= enabled@.len(),
{
    let mut count: usize = 0;
    let n = enabled.len();
    for i in 0..n
        invariant
            n == enabled@.len(),
            count == enabled_among(enabled@, i as nat),
            count <= i,
    {
        if enabled[i] {
            count = count + 1;
        }
    }
    count
}

/// The line beside the register's count: how many rules are on and off.
pub open spec fn enabled_note(enabled: nat, total: nat) -> Seq<char> {
    "· "@ + decimal(enabled) + " enabled · "@ + decimal((total - enabled) as nat)
        + " disabled but kept with their history"@
}

pub fn enabled_note_text(enabled: u64, total: u64) -> (r: String)
    requires
        enabled <= total,
    ensures
        r@ == enabled_note(enabled as nat, total as nat),
{
    let mut s = String::new();
    push_str(&mut s, "· ");
    push_decimal(&mut s, enabled);
    push_str(&mut s, " enabled · ");
    push_decimal(&mut s, total - enabled);
    push_str(&mut s, " disabled but kept with their history");
    proof {
        assert(s@ =~= enabled_note(enabled as nat, total as nat));
    }
    s
}

/// The line under a rule's name: the scenario it is confined to, or its scope
/// and that scope's specificity.
pub open spec fn scope_line(scenario: Option<Seq<char>>, scope: Seq<char>, specificity: nat) -> Seq<char> {
    match scenario {
        Some(name) => "Only under scenario “"@ + name + "”"@,
        None => scope + " · specificity "@ + decimal(specificity),
    }
}

pub fn scope_line_text(scenario: Option<&str>, scope: &str, specificity: u64) -> (r: String)
    ensures
        r@ == scope_line(
            match scenario {
                Some(n) => Some(n@),
                None => None,
            },
            scope@,
            specificity as nat,
        ),
{
    let mut s = String::new();
    match scenario {
        Some(name) => {
            push_str(&mut s, "Only under scenario “");
            push_str(&mut s, name);
            push_str(&mut s, "”");
        },
        None => {
            push_str(&mut s, scope);
            push_str(&mut s, " · specificity ");
            push_decimal(&mut s, specificity);
        },
    }
    proof {
        assert(s@ =~= scope_line(
            match scenario {
                Some(n) => Some(n@),
                None => None,
            },
            scope@,
            specificity as nat,
        ));
    }
    s
}

/// What a rule does, in words.
pub open spec fn statement(trigger: Seq<char>, scope: Seq<char>, action: Seq<char>) -> Seq<char> {
    "When "@ + trigger + " in "@ + scope + ": "@ + action
}

pub fn statement_text(trigger: &str, scope: &str, action: &str) -> (r: String)
    ensures
        r@ == statement(trigger@, scope@, action@),
{
    let mut s = String::new();
    push_str(&mut s, "When ");
    push_str(&mut s, trigger);
    push_str(&mut s, " in ");
    push_str(&mut s, scope);
    push_str(&mut s, ": ");
    push_str(&mut s, action);
    proof {
        assert(s@ =~= statement(trigger@, scope@, action@));
    }
    s
}

/// The span a rule is effective over: its first day, then its last or `open`.
pub open spec fn effective_span(from: i32, to: Option<i32>) -> Seq<char> {
    calendar_text(from, DatePattern::DayMonthYear) + " – "@ + match to {
        Some(day) => calendar_text(day, DatePattern::DayMonthYear),
        None => "open"@,
    }
}

pub fn effective_span_text(from: i32, to: Option<i32>) -> (r: String)
    requires
        valid_day(from as int),
        to matches Some(day) ==> valid_day(day as int),
    ensures
        r@ == effective_span(from, to),
{
    let mut s = date_text(from, DatePattern::DayMonthYear);
    push_str(&mut s, " – ");
    match to {
        Some(day) => {
            let d = date_text(day, DatePattern::DayMonthYear);
            push_str(&mut s, d.as_str());
        },
        None => {
            push_str(&mut s, "open");
        },
    }
    proof {
        assert(s@ =~= effective_span(from, to));
    }
    s
}

/// The conditions of a rule: all of them joined by `and`, or a sentence that
/// there are none.
pub open spec fn conditions_line(conditions: Seq<Seq<char>>) -> Seq<char> {
    if conditions.len() == 0 { "No additional conditions"@ } else { joined(conditions, " and "@) }
}

pub fn conditions_line_text(conditions: &Vec<String>) -> (r: String)
    ensures
        r@ == conditions_line(texts(conditions@)),
{
    if conditions.len() == 0 {
        "No additional conditions".to_string()
    } else {
        join_texts(conditions, " and ")
    }
}

/// Under which plans a rule applies: its scenario's only, or all of them.
pub open spec fn applies_under(scenario: Option<Seq<char>>) -> Seq<char> {
    match scenario {
        Some(name) => "Scenario “"@ + name + "” only"@,
        None => "The baseline and every scenario"@,
    }
}

pub fn applies_under_text(scenario: Option<&str>) -> (r: String)
    ensures
        r@ == applies_under(
            match scenario {
                Some(n) => Some(n@),
                None => None,
            },
        ),
{
    match scenario {
        Some(name) => {
            let mut s = String::new();
            push_str(&mut s, "Scenario “");
            push_str(&mut s, name);
            push_str(&mut s, "” only");
            proof {
                assert(s@ =~= "Scenario “"@ + name@ + "” only"@);
            }
            s
        },
        None => "The baseline and every scenario".to_string(),
    }
}

/// A rule's status: enabled or not, and its version.
pub open spec fn status_line(enabled: bool, version: nat) -> Seq<char> {
    (if enabled { "Enabled, version "@ } else { "Disabled, version "@ }) + decimal(version)
}

pub fn status_line_text(enabled: bool, version: u64) -> (r: String)
    ensures
        r@ == status_line(enabled, version as nat),
{
    let mut s = String::new();
    if enabled {
        push_str(&mut s, "Enabled, version ");
    } else {
        push_str(&mut s, "Disabled, version ");
    }
    push_decimal(&mut s, version);
    proof {
        assert(s@ =~= status_line(enabled, version as nat));
    }
    s
}

/// The history tab's sentence when a rule has no earlier version.
pub open spec fn first_version_note(version: nat) -> Seq<char> {
    "Version "@ + decimal(version) + " is the first; nothing has changed it yet."@
}

pub fn first_version_note_text(version: u64) -> (r: String)
    ensures
        r@ == first_version_note(version as nat),
{
    let mut s = String::new();
    push_str(&mut s, "Version ");
    push_decimal(&mut s, version);
    push_str(&mut s, " is the first; nothing has changed it yet.");
    proof {
        assert(s@ =~= first_version_note(version as nat));
    }
    s
}

// ----- rule decisions ----------------------------------------------------------

/// One decision the rule evaluation took: the rules that were candidates and
/// the one chosen, if any.
#[derive(Clone, Debug)]
pub struct RuleDecision {
    pub candidates: Vec<u64>,
    pub chosen: Option<u64>,
}

/// Whether a rule was a candidate of a decision.
pub open spec fn candidate_in(d: RuleDecision, rule: u64) -> bool {
    d.candidates@.contains(rule)
}

/// Whether the activity report lists a decision: with competing candidates
/// when only those are asked for, and with the filtered rule among its
/// candidates when a rule is chosen.
pub open spec fn activity_listed(d: RuleDecision, conflicts_only: bool, rule: Option<u64>) -> bool {
    (!conflicts_only || d.candidates@.len() > 1) && match rule {
        None => true,
        Some(id) => candidate_in(d, id),
    }
}

/// The positions among `ds` of the decisions the report lists, in order.
pub open spec fn activity_positions(ds: Seq<RuleDecision>, conflicts_only: bool, rule: Option<u64>) -> Seq<usize>
    decreases ds.len(),
{
    if ds.len() == 0 {
        Seq::empty()
    } else {
        let prev = activity_positions(ds.drop_last(), conflicts_only, rule);
        if activity_listed(ds.last(), conflicts_only, rule) { prev.push((ds.len() - 1) as usize) } else { prev }
    }
}

fn has_candidate(d: &RuleDecision, rule: u64) -> (r: bool)
    ensures
        r == candidate_in(*d, rule),
{
    let n = d.candidates.len();
    for i in 0..n
        invariant
            n == d.candidates@.len(),
            forall|j: int| 0 <= j < i ==> d.candidates@[j] != rule,
    {
        if d.candidates[i] == rule {
            return true;
        }
    }
    false
}

/// The decisions the activity report lists, by position.
pub fn activity_decisions(decisions: &Vec<RuleDecision>, conflicts_only: bool, rule: Option<u64>) -> (r: Vec<usize>)
    ensures
        r@ == activity_positions(decisions@, conflicts_only, rule),
{
    let mut listed: Vec<usize> = Vec::new();
    let n = decisions.len();
    for i in 0..n
        invariant
            n == decisions@.len(),
            listed@ == activity_positions(decisions@.take(i as int), conflicts_only, rule),
    {
        let d = &decisions[i];
        let competing = d.candidates.len() > 1;
        let matches_rule = match rule {
            None => true,
            Some(id) => has_candidate(d, id),
        };
        if (!conflicts_only || competing) && matches_rule {
            listed.push(i);
        }
        proof {
            assert(decisions@.take(i + 1).drop_last() =~= decisions@.take(i as int));
        }
    }
    proof {
        assert(decisions@.take(n as int) =~= decisions@);
    }
    listed
}

/// The decisions a rule's detail lists: every one the rule was a candidate
/// of, won or lost, by position.
pub fn decisions_for(decisions: &Vec<RuleDecision>, rule: u64) -> (r: Vec<usize>)
    ensures
        r@ == activity_positions(decisions@, false, Some(rule)),
{
    activity_decisions(decisions, false, Some(rule))
}

/// Every decision the report lists passes its filters, and stands in the
/// evaluation: narrowing to competing candidates or to a rule never adds one.
pub proof fn activity_positions_pass(ds: Seq<RuleDecision>, conflicts_only: bool, rule: Option<u64>)
    requires
        ds.len() <= usize::MAX,
    ensures
        activity_positions(ds, conflicts_only, rule).len() <= ds.len(),
        forall|i: int| 0 <= i < activity_positions(ds, conflicts_only, rule).len() ==> {
            let p = #[trigger] activity_positions(ds, conflicts_only, rule)[i];
            p < ds.len() && activity_listed(ds[p as int], conflicts_only, rule)
        },
    decreases ds.len(),
{
    if ds.len() > 0 {
        let prev = ds.drop_last();
        activity_positions_pass(prev, conflicts_only, rule);
        assert forall|i: int| 0 <= i < activity_positions(ds, conflicts_only, rule).len() implies {
            let p = #[trigger] activity_positions(ds, conflicts_only, rule)[i];
            p < ds.len() && activity_listed(ds[p as int], conflicts_only, rule)
        } by {
            if i < activity_positions(prev, conflicts_only, rule).len() {
                let p = activity_positions(prev, conflicts_only, rule)[i];
                assert(prev[p as int] == ds[p as int]);
            }
        }
    }
}

/// The rule the report is filtered to: none on the first row of the rule
/// choice, else the rule on that row less one, and none past the last rule.
pub open spec fn rule_filter_of(row: nat, rules: Seq<u64>) -> Option<u64> {
    if row == 0 || row - 1 >= rules.len() { None } else { Some(rules[row - 1]) }
}

pub fn rule_filter(row: usize, rules: &Vec<u64>) -> (r: Option<u64>)
    ensures
        r == rule_filter_of(row as nat, rules@),
{
    if row == 0 || row - 1 >= rules.len() { None } else { Some(rules[row - 1]) }
}

/// The name of a decision's winner: the first rule with the chosen id, or
/// `None applied` when no rule was chosen or the chosen one is gone.
pub open spec fn winner_name(chosen: Option<u64>, ids: Seq<u64>, names: Seq<Seq<char>>) -> Seq<char> {
    match chosen {
        None => "None applied"@,
        Some(id) => if exists|i: int| 0 <= i < ids.len() && ids[i] == id {
            names[choose_first(ids, id)]
        } else {
            "None applied"@
        },
    }
}

/// The first position of `id` in `ids`.
pub open spec fn choose_first(ids: Seq<u64>, id: u64) -> int {
    choose|i: int| 0 <= i < ids.len() && ids[i] == id && forall|j: int| 0 <= j < i ==> ids[j] != id
}

pub fn winner_name_text(chosen: Option<u64>, ids: &Vec<u64>, names: &Vec<String>) -> (r: String)
    requires
        ids@.len() == names@.len(),
    ensures
        r@ == winner_name(chosen, ids@, texts(names@)),
{
    match chosen {
        None => "None applied".to_string(),
        Some(id) => {
            let n = ids.len();
            for i in 0..n
                invariant
                    n == ids@.len(),
                    n == names@.len(),
                    chosen == Some(id),
                    forall|j: int| 0 <= j < i ==> ids@[j] != id,
            {
                if ids[i] == id {
                    proof {
                        let k = choose_first(ids@, id);
                        assert(0 <= i < ids@.len() && ids@[i as int] == id && forall|j: int| 0 <= j < i ==> ids@[j] != id);
                        assert(exists|k: int| 0 <= k < ids@.len() && ids@[k] == id && forall|j: int| 0 <= j < k ==> ids@[j] != id);
                        assert(0 <= k < ids@.len() && ids@[k] == id && forall|j: int| 0 <= j < k ==> ids@[j] != id);
                        if k < i {
                            assert(ids@[k] != id);
                        }
                        if k > i {
                            assert(ids@[i as int] != id);
                        }
                        assert(k == i);
                    }
                    let mut s = String::new();
                    push_str(&mut s, names[i].as_str());
                    proof {
                        assert(s@ =~= names@[i as int]@);
                        assert(texts(names@)[i as int] == names@[i as int]@);
                    }
                    return s;
                }
            }
            "None applied".to_string()
        },
    }
}

/// What the decisions list says when it is empty.
pub open spec fn no_decisions_note(conflicts_only: bool) -> Seq<char> {
    if conflicts_only {
        "No decision in this window had competing candidates."@
    } else {
        "No rule applied to any occurrence in this window."@
    }
}

pub fn no_decisions_note_text(conflicts_only: bool) -> (r: String)
    ensures
        r@ == no_decisions_note(conflicts_only),
{
    if conflicts_only {
        "No decision in this window had competing candidates.".to_string()
    } else {
        "No rule applied to any occurrence in this window.".to_string()
    }
}

/// Whether the simulation found no difference at all: neither the end cash
/// nor the lowest cash moved.
pub fn no_difference(end_delta: i64, lowest_delta: i64) -> (r: bool)
    ensures
        r == (end_delta == 0 && lowest_delta == 0),
{
    end_delta == 0 && lowest_delta == 0
}

// ----- the rule screens' state -------------------------------------------------

/// The selection and tabs of the rule screens.
#[derive(Clone, Copy, PartialEq, Eq, Debug, Structural)]
pub struct RulesView {
    /// The rule selected in the register.
    pub selected_rule: Option<u64>,
    /// The detail's tab: details, decisions, simulation, history.
    pub rule_tab: usize,
    /// The decision whose candidates are open.
    pub decision_expanded: Option<usize>,
    /// The activity report's tab: decisions or fee postings.
    pub activity_tab: usize,
    /// Whether the report lists only decisions with competing candidates.
    pub conflicts_only: bool,
    /// The row chosen in the report's rule filter.
    pub rule_filter_row: usize,
}

/// The detail's simulation tab.
pub open spec fn simulation_tab() -> usize { 2 }

impl RulesView {
    /// Selects a rule in the register.
    pub fn select_rule(&mut self, id: u64)
        ensures
            *final(self) == (RulesView { selected_rule: Some(id), ..*old(self) }),
    {
        self.selected_rule = Some(id);
    }

    /// Opens a rule's detail on its simulation tab, selecting it; the rule to
    /// open is returned.
    pub fn open_rule_simulation(&mut self, id: u64) -> (opened: u64)
        ensures
            opened == id,
            *final(self) == (RulesView { selected_rule: Some(id), rule_tab: simulation_tab(), ..*old(self) }),
    {
        self.selected_rule = Some(id);
        self.rule_tab = 2;
        id
    }

    /// `Open…` on a decision: opens its candidates, or closes them when they
    /// are the ones open.
    pub fn toggle_decision(&mut self, i: usize)
        ensures
            *final(self) == (RulesView {
                decision_expanded: if old(self).decision_expanded == Some(i) { None } else { Some(i) },
                ..*old(self)
            }),
    {
        self.decision_expanded = if self.decision_expanded == Some(i) { None } else { Some(i) };
    }

    /// Changing the report's tab closes any open candidates.
    pub fn set_activity_tab(&mut self, tab: usize)
        ensures
            *final(self) == (RulesView { activity_tab: tab, decision_expanded: None, ..*old(self) }),
    {
        self.activity_tab = tab;
        self.decision_expanded = None;
    }

    /// Ticking `Competing candidates only` closes any open candidates.
    pub fn set_conflicts_only(&mut self, on: bool)
        ensures
            *final(self) == (RulesView { conflicts_only: on, decision_expanded: None, ..*old(self) }),
    {
        self.conflicts_only = on;
        self.decision_expanded = None;
    }

    /// `Clear`: every decision, every rule, nothing open.
    pub fn clear_activity_filters(&mut self)
        ensures
            *final(self) == (RulesView {
                conflicts_only: false,
                rule_filter_row: 0,
                decision_expanded: None,
                ..*old(self)
            }),
    {
        self.conflicts_only = false;
        self.rule_filter_row = 0;
        self.decision_expanded = None;
    }
}

/// `Open…` twice on the same decision leaves the view as it was.
pub proof fn toggle_decision_twice(v: RulesView, i: usize)
    ensures
        ({
            let once = RulesView { decision_expanded: if v.decision_expanded == Some(i) { None } else { Some(i) }, ..v };
            let twice = RulesView {
                decision_expanded: if once.decision_expanded == Some(i) { None } else { Some(i) },
                ..once
            };
            (v.decision_expanded is None || v.decision_expanded == Some(i)) ==> twice == v
        }),
{
}

/// Whether `Clear` has anything to clear.
pub fn can_clear_activity(v: &RulesView, rule: Option<u64>) -> (r: bool)
    ensures
        r == (v.conflicts_only || rule is Some),
{
    v.conflicts_only || rule.is_some()
}

// ----- the create-rule flow and the tie-break ----------------------------------

/// Leaving the create-rule flow asks first when a name was entered or a
/// condition added.
pub open spec fn leave_rule_flow_of(name: Seq<char>, conditions: nat) -> Leave {
    if trimmed(name).len() > 0 || conditions > 0 { Leave::Confirm } else { Leave::Go }
}

pub fn cancel_rule_flow(name: &str, conditions: usize) -> (r: Leave)
    ensures
        r == leave_rule_flow_of(name@, conditions as nat),
{
    let t = trim(name);
    if t.unicode_len() > 0 || conditions > 0 { Leave::Confirm } else { Leave::Go }
}

/// The create-rule step on show, never past the review.
pub fn create_step(step: usize) -> (r: usize)
    ensures
        r == if step <= 3 { step } else { 3 },
{
    if step < 3 { step } else { 3 }
}

/// The flow's forward command: `Next` before the review, `Create rule` on it.
pub open spec fn forward_label(step: nat) -> Seq<char> {
    if step < 3 { "Next"@ } else { "Create rule"@ }
}

pub fn forward_label_text(step: usize) -> (r: String)
    ensures
        r@ == forward_label(step as nat),
{
    if step < 3 { "Next".to_string() } else { "Create rule".to_string() }
}

/// The review's `Applies under` for the scope chosen by its code; the
/// scenario scope is the seventh.
pub open spec fn review_applies_under(scope_kind: nat) -> Seq<char> {
    if scope_kind == 6 { "That scenario's plan only"@ } else { "The baseline and every scenario"@ }
}

pub fn review_applies_under_text(scope_kind: usize) -> (r: String)
    ensures
        r@ == review_applies_under(scope_kind as nat),
{
    if scope_kind == 6 {
        "That scenario's plan only".to_string()
    } else {
        "The baseline and every scenario".to_string()
    }
}

/// The sentence that reports a new tie-break policy.
pub open spec fn tie_break_note(label: Seq<char>) -> Seq<char> {
    "Tie-break is now “"@ + label + "”; rule decisions recomputed."@
}

/// Choosing a tie-break policy: the policy in force afterwards, and whether
/// anything changed.
pub open spec fn tie_break_step(current: u8, chosen: u8) -> (u8, bool) {
    (chosen, current != chosen)
}

/// Sets the tie-break policy (by its code) and reports the change; choosing
/// the policy already in force changes nothing and reports nothing.
pub fn apply_tie_break(current: &mut u8, chosen: u8, label: &str) -> (note: Option<String>)
    ensures
        *final(current) == tie_break_step(*old(current), chosen).0,
        note is Some <==> tie_break_step(*old(current), chosen).1,
        note matches Some(t) ==> t@ == tie_break_note(label@),
{
    if *current == chosen {
        return None;
    }
    *current = chosen;
    let mut s = String::new();
    push_str(&mut s, "Tie-break is now “");
    push_str(&mut s, label);
    push_str(&mut s, "”; rule decisions recomputed.");
    proof {
        assert(s@ =~= tie_break_note(label@));
    }
    Some(s)
}

/// Choosing the same tie-break twice: the second choice finds it in force,
/// changes nothing and reports nothing.
pub proof fn tie_break_settles(current: u8, chosen: u8)
    ensures
        tie_break_step(tie_break_step(current, chosen).0, chosen) == (chosen, false),
{
}

// ----- sentences of the register, the detail and the reports --------------------

/// The card that states how rules take precedence, with the tie-break in force.
pub open spec fn precedence_card(tie_break_label: Seq<char>) -> Seq<char> {
    "Rules resolve by explicit priority, then scope specificity, then the tie-break policy ("@ + tie_break_label
        + "). Disabling a rule or changing its priority records a new version and keeps the old one."@
}

pub fn precedence_card_text(tie_break_label: &str) -> (r: String)
    ensures
        r@ == precedence_card(tie_break_label@),
{
    let mut s = String::new();
    push_str(&mut s, "Rules resolve by explicit priority, then scope specificity, then the tie-break policy (");
    push_str(&mut s, tie_break_label);
    push_str(&mut s, "). Disabling a rule or changing its priority records a new version and keeps the old one.");
    proof { assert(s@ =~= precedence_card(tie_break_label@)); }
    s
}

/// The tag of a rule that applies under one scenario only.
pub open spec fn only_under(scenario: Seq<char>) -> Seq<char> {
    "Only under “"@ + scenario + "”"@
}

pub fn only_under_text(scenario: Option<String>) -> (r: Option<String>)
    ensures
        match scenario {
            Some(n) => r matches Some(t) && t@ == only_under(n@),
            None => r is None,
        },
{
    match scenario {
        Some(n) => {
            let mut s = String::new();
            push_str(&mut s, "Only under “");
            push_str(&mut s, n.as_str());
            push_str(&mut s, "”");
            proof { assert(s@ =~= only_under(n@)); }
            Some(s)
        },
        None => None,
    }
}

/// The description of a rule's simulation.
pub open spec fn simulation_description(through: i32) -> Seq<char> {
    "Household · Expected case · through "@ + calendar_text(through, DatePattern::DayMonthYear)
        + ". The rule is evaluated enabled and disabled; the household is untouched."@
}

pub fn simulation_description_text(through: i32) -> (r: String)
    requires
        valid_day(through as int),
    ensures
        r@ == simulation_description(through),
{
    let mut s = String::new();
    push_str(&mut s, "Household · Expected case · through ");
    let d = date_text(through, DatePattern::DayMonthYear);
    push_str(&mut s, d.as_str());
    push_str(&mut s, ". The rule is evaluated enabled and disabled; the household is untouched.");
    proof { assert(s@ =~= simulation_description(through)); }
    s
}

/// Under the fee grid: the fees' total, written, and the window.
pub open spec fn fee_total_line(total: Seq<char>, through: i32) -> Seq<char> {
    "Total fees "@ + total + " · through "@ + calendar_text(through, DatePattern::DayMonthYear) + " · expected case"@
}

pub fn fee_total_text(total: &str, through: i32) -> (r: String)
    requires
        valid_day(through as int),
    ensures
        r@ == fee_total_line(total@, through),
{
    let mut s = String::new();
    push_str(&mut s, "Total fees ");
    push_str(&mut s, total);
    push_str(&mut s, " · through ");
    let d = date_text(through, DatePattern::DayMonthYear);
    push_str(&mut s, d.as_str());
    push_str(&mut s, " · expected case");
    proof { assert(s@ =~= fee_total_line(total@, through)); }
    s
}

/// Beside the plan choice of the activity report.
pub open spec fn expected_through(through: i32) -> Seq<char> {
    "Expected · Through "@ + calendar_text(through, DatePattern::DayMonthYear)
}

pub fn expected_through_text(through: i32) -> (r: String)
    requires
        valid_day(through as int),
    ensures
        r@ == expected_through(through),
{
    let mut s = String::new();
    push_str(&mut s, "Expected · Through ");
    let d = date_text(through, DatePattern::DayMonthYear);
    push_str(&mut s, d.as_str());
    proof { assert(s@ =~= expected_through(through)); }
    s
}

/// The rule's own status among a simulation's facts.
pub open spec fn own_status(enabled: bool) -> Seq<char> {
    if enabled { "Enabled in the household"@ } else { "Disabled in the household"@ }
}

pub fn own_status_text(enabled: bool) -> (r: String)
    ensures
        r@ == own_status(enabled),
{
    if enabled { String::from_str("Enabled in the household") } else { String::from_str("Disabled in the household") }
}

/// Under a rule's simulation: the currency and whether the rule is enabled now.
pub open spec fn simulation_scope(currency: Seq<char>, enabled: bool) -> Seq<char> {
    "Scope: "@ + currency + " · "@ + if enabled { "the rule is currently enabled"@ } else { "the rule is currently disabled"@ }
}

pub fn simulation_scope_text(currency: &str, enabled: bool) -> (r: String)
    ensures
        r@ == simulation_scope(currency@, enabled),
{
    let mut s = String::new();
    push_str(&mut s, "Scope: ");
    push_str(&mut s, currency);
    push_str(&mut s, " · ");
    if enabled {
        push_str(&mut s, "the rule is currently enabled");
    } else {
        push_str(&mut s, "the rule is currently disabled");
    }
    proof { assert(s@ =~= simulation_scope(currency@, enabled)); }
    s
}

/// The fee events a rule's detail lists: those it charged, in order.
pub open spec fn fees_of_rule(fee_rules: Seq<u64>, rule: u64, k: nat) -> Seq<usize>
    decreases k,
{
    if k == 0 || k > fee_rules.len() {
        Seq::empty()
    } else {
        let p = fees_of_rule(fee_rules, rule, (k - 1) as nat);
        if fee_rules[k - 1] == rule { p.push((k - 1) as usize) } else { p }
    }
}

/// `fee_rules` holds the rule that charged each fee event of the window.
pub fn rule_fees(fee_rules: &Vec<u64>, rule: u64) -> (r: Vec<usize>)
    ensures
        r@ == fees_of_rule(fee_rules@, rule, fee_rules@.len()),
{
    let mut out: Vec<usize> = Vec::new();
    let n = fee_rules.len();
    for i in 0..n
        invariant
            n == fee_rules@.len(),
            out@ == fees_of_rule(fee_rules@, rule, i as nat),
    {
        if fee_rules[i] == rule {
            out.push(i);
        }
    }
    out
}

} // verus!
