//! Scenarios: the count of a scenario's changes, the verdict on the ticked
//! set, whether it can be composed, which scenario's detail is open, and the
//! sentences of the comparison and of its copied text.

use vstd::prelude::*;
use crate::text::{DatePattern, calendar_text, date_text, decimal, joined, push_decimal, push_str, texts, valid_day};

verus! {

/// `1 change`, `3 changes`.
pub open spec fn change_count(n: nat) -> Seq<char> {
    decimal(n) + " change"@ + if n == 1 { Seq::empty() } else { "s"@ }
}

pub fn change_count_text(n: u64) -> (r: String)
    ensures
        r@ == change_count(n as nat),
{
    let mut s = String::new();
    push_decimal(&mut s, n);
    push_str(&mut s, " change");
    if n != 1 {
        push_str(&mut s, "s");
    }
    proof { assert(s@ =~= change_count(n as nat)); }
    s
}

/// The line under a scenario's name: its changes and who sees it.
pub open spec fn card_meta(changes: nat, private: bool) -> Seq<char> {
    change_count(changes) + " · "@ + if private { "Private to its owner"@ } else { "Shared"@ }
}

pub fn card_meta_text(changes: u64, private: bool) -> (r: String)
    ensures
        r@ == card_meta(changes as nat, private),
{
    let mut s = change_count_text(changes);
    push_str(&mut s, " · ");
    if private {
        push_str(&mut s, "Private to its owner");
    } else {
        push_str(&mut s, "Shared");
    }
    s
}

/// The ticked set can be composed into a new scenario: two or more, no
/// conflicting changes.
pub open spec fn compose_possible(selected: nat, conflicts: nat) -> bool {
    selected >= 2 && conflicts == 0
}

pub fn can_compose(selected: usize, conflicts: usize) -> (r: bool)
    ensures
        r == compose_possible(selected as nat, conflicts as nat),
{
    selected >= 2 && conflicts == 0
}

/// The title of the verdict on a conflict-free selection.
pub open spec fn compatible_title(selected: nat) -> Seq<char> {
    if selected == 0 {
        "Nothing selected for comparison"@
    } else if selected == 1 {
        "One scenario selected"@
    } else {
        decimal(selected) + " selected and compatible"@
    }
}

pub open spec fn compatible_body(selected: nat) -> Seq<char> {
    if selected == 0 {
        "Tick a scenario to compare it with the baseline; tick two or more to combine them."@
    } else if selected == 1 {
        "Tick another to check compatibility and compose."@
    } else {
        "No two changes touch the same series, company or tax rule."@
    }
}

pub fn compatible_verdict(selected: u64) -> (r: (String, String))
    ensures
        r.0@ == compatible_title(selected as nat),
        r.1@ == compatible_body(selected as nat),
{
    if selected == 0 {
        (String::from_str("Nothing selected for comparison"), String::from_str("Tick a scenario to compare it with the baseline; tick two or more to combine them."))
    } else if selected == 1 {
        (String::from_str("One scenario selected"), String::from_str("Tick another to check compatibility and compose."))
    } else {
        let mut t = String::new();
        push_decimal(&mut t, selected);
        push_str(&mut t, " selected and compatible");
        proof { assert(t@ =~= compatible_title(selected as nat)); }
        (t, String::from_str("No two changes touch the same series, company or tax rule."))
    }
}

/// A pair of conflicting scenarios: their names and why they conflict.
#[derive(Clone, Debug)]
pub struct Conflict {
    pub first: String,
    pub second: String,
    pub reason: String,
}

pub open spec fn conflict_line(c: Conflict) -> Seq<char> {
    c.first@ + " × "@ + c.second@ + ": "@ + c.reason@
}

/// The alert over a conflicting selection.
pub open spec fn conflicts_alert(cs: Seq<Conflict>) -> Seq<char> {
    joined(cs.map_values(|c: Conflict| conflict_line(c)), " · "@) + ". A comparison can still run in the order selected; composing cannot."@
}

pub fn conflicts_alert_text(cs: &Vec<Conflict>) -> (r: String)
    ensures
        r@ == conflicts_alert(cs@),
{
    let mut lines: Vec<String> = Vec::new();
    let n = cs.len();
    for i in 0..n
        invariant
            n == cs@.len(),
            lines@.len() == i,
            forall|j: int| 0 <= j < i ==> (#[trigger] lines@[j])@ == conflict_line(cs@[j]),
    {
        let c = &cs[i];
        let mut s = c.first.clone();
        push_str(&mut s, " × ");
        push_str(&mut s, c.second.as_str());
        push_str(&mut s, ": ");
        push_str(&mut s, c.reason.as_str());
        lines.push(s);
    }
    proof { assert(texts(lines@) =~= cs@.map_values(|c: Conflict| conflict_line(c))); }
    let mut s = crate::text::join_texts(&lines, " · ");
    push_str(&mut s, ". A comparison can still run in the order selected; composing cannot.");
    s
}

/// The scenario whose detail is open: the one chosen when it is still among
/// the cards, else the first card.
pub open spec fn inspected_of(chosen: Option<u64>, cards: Seq<u64>) -> Option<u64> {
    if chosen matches Some(id) && cards.contains(id) {
        chosen
    } else if cards.len() > 0 {
        Some(cards[0])
    } else {
        None
    }
}

pub fn inspected(chosen: Option<u64>, cards: &Vec<u64>) -> (r: Option<u64>)
    ensures
        r == inspected_of(chosen, cards@),
        r matches Some(id) ==> cards@.contains(id),
{
    if let Some(id) = chosen {
        let n = cards.len();
        for i in 0..n
            invariant
                n == cards@.len(),
                chosen == Some(id),
                forall|j: int| 0 <= j < i ==> cards@[j] != id,
        {
            if cards[i] == id {
                proof { assert(cards@.contains(id)); }
                return chosen;
            }
        }
        proof { assert(!cards@.contains(id)); }
    }
    if cards.len() > 0 {
        proof { assert(cards@.contains(cards@[0])); }
        Some(cards[0])
    } else {
        None
    }
}

/// Which scenarios screen is on show.
#[derive(Clone, Copy, PartialEq, Eq, Debug, Structural)]
pub enum ScenarioScreen {
    /// The list of scenarios with the inspected one's detail.
    List,
    /// The comparison with the baseline.
    Comparison,
    /// Any other screen.
    Elsewhere,
}

/// The scenarios screens' state: the ticked scenarios, the one whose detail
/// is open, the comparison's case by its code, the screen on show, and
/// whether the scenario models must be computed again.
#[derive(Clone, Debug)]
pub struct ScenarioView {
    pub selection: Vec<u64>,
    pub detail: Option<u64>,
    pub case: u8,
    pub screen: ScenarioScreen,
    pub stale: bool,
}

impl ScenarioView {
    /// Opens a scenario's detail; the selection stays as it is.
    pub fn inspect_scenario(&mut self, id: u64)
        ensures
            final(self).detail == Some(id),
            final(self).selection@ == old(self).selection@,
            final(self).case == old(self).case,
            final(self).screen == old(self).screen,
            final(self).stale == old(self).stale,
    {
        self.detail = Some(id);
    }

    /// Opens a scenario's detail from another screen: the scenarios list
    /// opens on it; the selection stays as it is.
    pub fn open_scenario_detail(&mut self, id: u64)
        ensures
            final(self).detail == Some(id),
            final(self).selection@ == old(self).selection@,
            final(self).case == old(self).case,
            final(self).screen == ScenarioScreen::List,
            final(self).stale == old(self).stale,
    {
        self.detail = Some(id);
        self.screen = ScenarioScreen::List;
    }

    /// `Compare this scenario`: the selection becomes just this one, its
    /// detail opens, the scenario models are to be computed again and the
    /// comparison opens.
    pub fn compare_only(&mut self, id: u64)
        ensures
            final(self).selection@ == seq![id],
            final(self).detail == Some(id),
            final(self).case == old(self).case,
            final(self).screen == ScenarioScreen::Comparison,
            final(self).stale,
    {
        let mut selection: Vec<u64> = Vec::new();
        selection.push(id);
        proof {
            assert(selection@ =~= seq![id]);
        }
        self.selection = selection;
        self.detail = Some(id);
        self.stale = true;
        self.screen = ScenarioScreen::Comparison;
    }

    /// The comparison's case.
    pub fn set_comparison_case(&mut self, case: u8)
        ensures
            final(self).case == case,
            final(self).selection@ == old(self).selection@,
            final(self).detail == old(self).detail,
            final(self).screen == old(self).screen,
    {
        self.case = case;
    }
}

/// The subtitle of the comparison: the selected scenarios joined by ` + `.
pub open spec fn selection_names(names: Seq<String>) -> Seq<char> {
    if names.len() == 0 { "no scenario selected"@ } else { joined(texts(names), " + "@) }
}

pub fn selection_names_text(names: &Vec<String>) -> (r: String)
    ensures
        r@ == selection_names(names@),
{
    if names.len() == 0 {
        String::from_str("no scenario selected")
    } else {
        crate::text::join_texts(names, " + ")
    }
}

/// The line under the comparison's title.
pub open spec fn comparison_subtitle(names: Seq<String>, through: i32) -> Seq<char> {
    "Household · "@ + selection_names(names) + " · through "@ + calendar_text(through, DatePattern::DayMonthYear)
}

pub fn comparison_subtitle_text(names: &Vec<String>, through: i32) -> (r: String)
    requires
        valid_day(through as int),
    ensures
        r@ == comparison_subtitle(names@, through),
{
    let mut s = String::new();
    push_str(&mut s, "Household · ");
    let n = selection_names_text(names);
    push_str(&mut s, n.as_str());
    push_str(&mut s, " · through ");
    let d = date_text(through, DatePattern::DayMonthYear);
    push_str(&mut s, d.as_str());
    proof {
        assert(s@ =~= comparison_subtitle(names@, through));
    }
    s
}

/// How many values the comparison table lists before it stops.
pub open spec fn max_values() -> nat { 40 }

/// Under the value table: how many merged points were left out, when any were.
pub open spec fn more_points(total: nat) -> Option<Seq<char>> {
    if total > max_values() { Some(decimal((total - max_values()) as nat) + " more points after these."@) } else { None }
}

pub fn more_points_text(total: u64) -> (r: Option<String>)
    ensures
        match more_points(total as nat) {
            Some(t) => r matches Some(x) && x@ == t,
            None => r is None,
        },
{
    if total > 40 {
        let mut s = String::new();
        push_decimal(&mut s, total - 40);
        push_str(&mut s, " more points after these.");
        proof {
            assert(s@ =~= more_points(total as nat).unwrap());
        }
        Some(s)
    } else {
        None
    }
}

/// What the difference check says: a card when the attribution sums to the
/// end difference, a warning when it does not. The amounts come written.
#[derive(Clone, Debug)]
pub struct AttributionCheck {
    /// Whether it is a warning.
    pub warning: bool,
    pub title: String,
    pub body: String,
}

pub open spec fn check_title(verified: bool) -> Seq<char> {
    if verified { "Sums exactly to the end difference"@ } else { "Difference check failed"@ }
}

pub open spec fn check_body(verified: bool, total: Seq<char>, end_delta: Seq<char>) -> Seq<char> {
    if verified {
        "Checked to the minor unit: "@ + total
    } else {
        "The attribution sums to "@ + total + " but the end difference is "@ + end_delta
            + ". The comparison figures above stand; the breakdown does not."@
    }
}

pub fn attribution_check(verified: bool, total: &str, end_delta: &str) -> (r: AttributionCheck)
    ensures
        r.warning == !verified,
        r.title@ == check_title(verified),
        r.body@ == check_body(verified, total@, end_delta@),
{
    let mut body = String::new();
    if verified {
        push_str(&mut body, "Checked to the minor unit: ");
        push_str(&mut body, total);
        proof { assert(body@ =~= check_body(verified, total@, end_delta@)); }
        AttributionCheck { warning: false, title: String::from_str("Sums exactly to the end difference"), body }
    } else {
        push_str(&mut body, "The attribution sums to ");
        push_str(&mut body, total);
        push_str(&mut body, " but the end difference is ");
        push_str(&mut body, end_delta);
        push_str(&mut body, ". The comparison figures above stand; the breakdown does not.");
        proof { assert(body@ =~= check_body(verified, total@, end_delta@)); }
        AttributionCheck { warning: true, title: String::from_str("Difference check failed"), body }
    }
}

/// The line under the attribution list.
pub open spec fn end_difference_line(end_delta: Seq<char>, total: Seq<char>) -> Seq<char> {
    "End difference "@ + end_delta + " · attribution total "@ + total
}

pub fn end_difference_text(end_delta: &str, total: &str) -> (r: String)
    ensures
        r@ == end_difference_line(end_delta@, total@),
{
    let mut s = String::new();
    push_str(&mut s, "End difference ");
    push_str(&mut s, end_delta);
    push_str(&mut s, " · attribution total ");
    push_str(&mut s, total);
    proof { assert(s@ =~= end_difference_line(end_delta@, total@)); }
    s
}

/// A comparison's result as the copied text needs it: the end difference,
/// written, and whether the attribution sums to it.
#[derive(Clone, Debug)]
pub struct ComparedEnd {
    pub end_delta: String,
    pub verified: bool,
}

/// The comparison as the copy button puts it on the clipboard; the last two
/// lines are left blank when there is no comparison yet.
pub open spec fn comparison_copy(case_label: Seq<char>, through: i32, names: Seq<String>, end: Option<ComparedEnd>) -> Seq<char> {
    "Scenario comparison\nHousehold · "@ + case_label + " case · through "@ + calendar_text(through, DatePattern::DayMonthYear)
        + "\nSelection: "@ + joined(texts(names), " + "@)
        + "\nEnd difference "@ + (match end { Some(e) => e.end_delta@, None => Seq::empty() })
        + "\nAttribution "@
        + (match end { Some(e) => if e.verified { "sums exactly"@ } else { "does not sum"@ }, None => Seq::empty() })
        + "\n"@
}

pub fn comparison_copy_text(case_label: &str, through: i32, names: &Vec<String>, end: &Option<ComparedEnd>) -> (r: String)
    requires
        valid_day(through as int),
    ensures
        r@ == comparison_copy(case_label@, through, names@, *end),
{
    let mut s = String::new();
    push_str(&mut s, "Scenario comparison\nHousehold · ");
    push_str(&mut s, case_label);
    push_str(&mut s, " case · through ");
    let d = date_text(through, DatePattern::DayMonthYear);
    push_str(&mut s, d.as_str());
    push_str(&mut s, "\nSelection: ");
    let j = crate::text::join_texts(names, " + ");
    push_str(&mut s, j.as_str());
    push_str(&mut s, "\nEnd difference ");
    match end {
        Some(e) => push_str(&mut s, e.end_delta.as_str()),
        None => {},
    }
    push_str(&mut s, "\nAttribution ");
    match end {
        Some(e) => {
            if e.verified {
                push_str(&mut s, "sums exactly");
            } else {
                push_str(&mut s, "does not sum");
            }
        },
        None => {},
    }
    push_str(&mut s, "\n");
    proof {
        assert(s@ =~= comparison_copy(case_label@, through, names@, *end));
    }
    s
}

/// A tax pack in the basis: `Pack 2024 (verified)`.
pub open spec fn pack_label(name: Seq<char>, verified: bool) -> Seq<char> {
    name + " ("@ + (if verified { "verified"@ } else { "unverified"@ }) + ")"@
}

pub fn pack_label_text(name: &str, verified: bool) -> (r: String)
    ensures
        r@ == pack_label(name@, verified),
{
    let mut s = String::new();
    push_str(&mut s, name);
    push_str(&mut s, " (");
    if verified {
        push_str(&mut s, "verified");
    } else {
        push_str(&mut s, "unverified");
    }
    push_str(&mut s, ")");
    proof { assert(s@ =~= pack_label(name@, verified)); }
    s
}

/// The comparison's window: `05 Mar 2024 through 31 Dec 2026`.
pub open spec fn window_text(from: i32, through: i32) -> Seq<char> {
    calendar_text(from, DatePattern::DayMonthYear) + " through "@ + calendar_text(through, DatePattern::DayMonthYear)
}

pub fn comparison_window_text(from: i32, through: i32) -> (r: String)
    requires
        valid_day(from as int),
        valid_day(through as int),
    ensures
        r@ == window_text(from, through),
{
    let mut s = String::new();
    let a = date_text(from, DatePattern::DayMonthYear);
    push_str(&mut s, a.as_str());
    push_str(&mut s, " through ");
    let b = date_text(through, DatePattern::DayMonthYear);
    push_str(&mut s, b.as_str());
    proof { assert(s@ =~= window_text(from, through)); }
    s
}

/// The ticked scenarios as the selection block lists them: `1. Car`, `2. Move`.
pub open spec fn selection_lines(names: Seq<String>) -> Seq<Seq<char>> {
    Seq::new(names.len(), |i: int| crate::projections::numbered(i as nat, names[i]@))
}

pub fn selection_lines_text(names: &Vec<String>) -> (r: Vec<String>)
    ensures
        texts(r@) == selection_lines(names@),
{
    let mut out: Vec<String> = Vec::new();
    let n = names.len();
    for i in 0..n
        invariant
            n == names@.len(),
            out@.len() == i,
            forall|k: int| 0 <= k < i ==> (#[trigger] out@[k])@ == crate::projections::numbered(k as nat, names@[k]@),
    {
        let line = crate::projections::numbered_text(i as u64, names[i].as_str());
        out.push(line);
    }
    proof {
        assert(texts(out@) =~= selection_lines(names@));
    }
    out
}

/// A scenario detail's badge and description: whether it is private to its
/// owner, and its description or a note that none was recorded.
pub open spec fn detail_heading(private: bool, description: Seq<char>) -> (Seq<char>, Seq<char>) {
    (
        if private { "Private to its owner"@ } else { "Shared with the household"@ },
        if description.len() == 0 { "No description recorded."@ } else { description },
    )
}

pub fn detail_heading_texts(private: bool, description: &str) -> (r: (String, String))
    ensures
        r.0@ == detail_heading(private, description@).0,
        r.1@ == detail_heading(private, description@).1,
{
    let badge = if private { String::from_str("Private to its owner") } else { String::from_str("Shared with the household") };
    let text = if description.unicode_len() == 0 { String::from_str("No description recorded.") } else { String::from_str(description) };
    (badge, text)
}

/// Who sees a scenario, as its detail says under its changes.
pub open spec fn visibility_note(private: bool) -> Seq<char> {
    if private {
        "Only its owner sees it, in every screen. A change cannot be edited or removed once added; the baseline is never touched."@
    } else {
        "Every person in the household sees it. A change cannot be edited or removed once added; the baseline is never touched."@
    }
}

pub fn visibility_note_text(private: bool) -> (r: String)
    ensures
        r@ == visibility_note(private),
{
    if private {
        String::from_str("Only its owner sees it, in every screen. A change cannot be edited or removed once added; the baseline is never touched.")
    } else {
        String::from_str("Every person in the household sees it. A change cannot be edited or removed once added; the baseline is never touched.")
    }
}

/// How an overlaid change came to a scenario: explicitly, or by a tag.
pub open spec fn overlay_origin(explicit: bool) -> Seq<char> {
    if explicit { "Explicit change"@ } else { "Tagged with this scenario"@ }
}

pub fn overlay_origin_text(explicit: bool) -> (r: String)
    ensures
        r@ == overlay_origin(explicit),
{
    if explicit { String::from_str("Explicit change") } else { String::from_str("Tagged with this scenario") }
}

/// The tooltips of `Compare selected` and `Compose…`.
pub open spec fn selection_tips(selected: nat, compose: bool) -> (Seq<char>, Seq<char>) {
    (
        if selected == 0 { "Tick at least one scenario"@ } else { "Compare the ticked scenarios with the baseline"@ },
        if compose { "Combine the ticked scenarios into a new one"@ } else { "Tick two or more compatible scenarios"@ },
    )
}

pub fn selection_tips_text(selected: usize, conflicts: usize) -> (r: (String, String))
    ensures
        r.0@ == selection_tips(selected as nat, compose_possible(selected as nat, conflicts as nat)).0,
        r.1@ == selection_tips(selected as nat, compose_possible(selected as nat, conflicts as nat)).1,
{
    let compare = if selected == 0 {
        String::from_str("Tick at least one scenario")
    } else {
        String::from_str("Compare the ticked scenarios with the baseline")
    };
    let compose = if can_compose(selected, conflicts) {
        String::from_str("Combine the ticked scenarios into a new one")
    } else {
        String::from_str("Tick two or more compatible scenarios")
    };
    (compare, compose)
}

/// The first card of a scenario.
pub open spec fn card_of(cards: Seq<u64>, id: u64) -> Option<int> {
    if cards.contains(id) {
        Some(choose|i: int| 0 <= i < cards.len() && cards[i] == id && forall|j: int| 0 <= j < i ==> cards[j] != id)
    } else {
        None
    }
}

/// The cards of the ticked scenarios, in the order they were ticked; a
/// ticked scenario without a card (no longer visible) is left out.
pub open spec fn ticked_cards(selection: Seq<u64>, cards: Seq<u64>, k: nat) -> Seq<usize>
    decreases k,
{
    if k == 0 || k > selection.len() {
        Seq::empty()
    } else {
        let p = ticked_cards(selection, cards, (k - 1) as nat);
        match card_of(cards, selection[k - 1]) {
            Some(i) => p.push(i as usize),
            None => p,
        }
    }
}

fn find_card(cards: &Vec<u64>, id: u64) -> (r: Option<usize>)
    ensures
        match card_of(cards@, id) {
            Some(i) => r == Some(i as usize),
            None => r is None,
        },
{
    let n = cards.len();
    for i in 0..n
        invariant
            n == cards@.len(),
            forall|j: int| 0 <= j < i ==> cards@[j] != id,
    {
        if cards[i] == id {
            proof {
                assert(cards@.contains(cards@[i as int]));
                assert(0 <= i < cards@.len() && cards@[i as int] == id && forall|j: int| 0 <= j < i ==> cards@[j] != id);
                let c = choose|c: int| 0 <= c < cards@.len() && cards@[c] == id && forall|j: int| 0 <= j < c ==> cards@[j] != id;
                if c < i {
                    assert(cards@[c] != id);
                } else if c > i {
                    assert(cards@[i as int] != id);
                }
            }
            return Some(i);
        }
    }
    None
}

pub fn selected_cards(selection: &Vec<u64>, cards: &Vec<u64>) -> (r: Vec<usize>)
    ensures
        r@ == ticked_cards(selection@, cards@, selection@.len()),
{
    let mut out: Vec<usize> = Vec::new();
    let n = selection.len();
    for k in 0..n
        invariant
            n == selection@.len(),
            out@ == ticked_cards(selection@, cards@, k as nat),
    {
        match find_card(cards, selection[k]) {
            Some(i) => out.push(i),
            None => {},
        }
    }
    out
}

// ----- the comparison's values ---------------------------------------------------------

/// One point of the merged path: a day, the baseline balance and the balance
/// with the scenarios, in minor units.
#[derive(Clone, Copy, Debug)]
pub struct ComparedPoint {
    pub day: i32,
    pub baseline: i64,
    pub scenario: i64,
}

/// A row of the value table: the point and its difference, the scenarios
/// less the baseline.
#[derive(Clone, Copy, Debug)]
pub struct ValueRow {
    pub day: i32,
    pub baseline: i64,
    pub scenario: i64,
    pub difference: i128,
}

pub open spec fn value_row_of(p: ComparedPoint, r: ValueRow) -> bool {
    r.day == p.day && r.baseline == p.baseline && r.scenario == p.scenario && r.difference == p.scenario - p.baseline
}

/// The value table: the first forty points of the merged path, in order.
pub fn comparison_values(path: &Vec<ComparedPoint>) -> (r: Vec<ValueRow>)
    ensures
        r@.len() == if path@.len() > max_values() { max_values() as int } else { path@.len() as int },
        forall|i: int| 0 <= i < r@.len() ==> value_row_of(path@[i], #[trigger] r@[i]),
{
    let n = if path.len() > 40 { 40 } else { path.len() };
    let mut out: Vec<ValueRow> = Vec::new();
    for i in 0..n
        invariant
            n <= path@.len(),
            out@.len() == i,
            forall|k: int| 0 <= k < i ==> value_row_of(path@[k], #[trigger] out@[k]),
    {
        let p = path[i];
        out.push(ValueRow { day: p.day, baseline: p.baseline, scenario: p.scenario, difference: p.scenario as i128 - p.baseline as i128 });
    }
    out
}

/// The readout of a selected point: its day and its place on the path.
pub open spec fn point_title(day: i32, index: nat, total: nat) -> Seq<char> {
    "Selected: "@ + calendar_text(day, DatePattern::DayMonthYear) + " · point "@ + decimal(index + 1) + " of "@ + decimal(total)
}

pub fn point_title_text(day: i32, index: u64, total: u64) -> (r: String)
    requires
        valid_day(day as int),
        index < u64::MAX,
    ensures
        r@ == point_title(day, index as nat, total as nat),
{
    let mut s = String::new();
    push_str(&mut s, "Selected: ");
    let d = date_text(day, DatePattern::DayMonthYear);
    push_str(&mut s, d.as_str());
    push_str(&mut s, " · point ");
    push_decimal(&mut s, index + 1);
    push_str(&mut s, " of ");
    push_decimal(&mut s, total);
    proof { assert(s@ =~= point_title(day, index as nat, total as nat)); }
    s
}

} // verus!
