//! Activity: what is due, the series behind it and the transactions recorded
//! against them — the states each register shows, the lines that count what
//! the filters left, and the sentences an occurrence is described by.

use vstd::prelude::*;
use crate::text::{
    DatePattern, calendar_text, contains_seq, contains_text, date_text, decimal, lowercase, lowercased, push_decimal,
    push_str, trim, trimmed, valid_day,
};
use crate::assumptions::{TagText, TagTone};
use crate::timeline::Direction;

verus! {

/// The remaining amount with the sign of its direction: `+` for income, `−`
/// for an expense, `→` before a transfer.
pub open spec fn signed_remaining(d: Direction, amount: Seq<char>) -> Seq<char> {
    match d {
        Direction::Income => "+"@ + amount,
        Direction::Expense => "−"@ + amount,
        Direction::Transfer(_) => "→ "@ + amount,
    }
}

/// `amount` is the remaining amount as the money type writes it.
pub fn signed_remaining_text(d: Direction, amount: &str) -> (r: String)
    ensures
        r@ == signed_remaining(d, amount@),
{
    let mut s = match d {
        Direction::Income => String::from_str("+"),
        Direction::Expense => String::from_str("−"),
        Direction::Transfer(_) => String::from_str("→ "),
    };
    push_str(&mut s, amount);
    s
}

/// The account column of an occurrence: the transfer's target after an
/// arrow (`?` when it no longer exists), else its linked movement's
/// account after `⇄`, else the account alone.
pub open spec fn occurrence_account(d: Direction, account: Seq<char>, target: Option<Seq<char>>, linked: Option<Seq<char>>) -> Seq<char> {
    match d {
        Direction::Transfer(_) => account + " → "@ + match target { Some(t) => t, None => "?"@ },
        _ => match linked {
            Some(l) => account + " ⇄ "@ + l,
            None => account,
        },
    }
}

pub fn occurrence_account_text(d: Direction, account: &str, target: Option<&str>, linked: Option<&str>) -> (r: String)
    ensures
        r@ == occurrence_account(d, account@, match target { Some(t) => Some(t@), None => None }, match linked { Some(l) => Some(l@), None => None }),
{
    let mut s = String::from_str(account);
    match d {
        Direction::Transfer(_) => {
            push_str(&mut s, " → ");
            match target {
                Some(t) => push_str(&mut s, t),
                None => push_str(&mut s, "?"),
            }
        },
        _ => match linked {
            Some(l) => {
                push_str(&mut s, " ⇄ ");
                push_str(&mut s, l);
            },
            None => {},
        },
    }
    s
}

/// How an occurrence row is toned: muted when it no longer posts, success
/// for income, plain otherwise.
#[derive(Clone, Copy, PartialEq, Eq, Debug, Structural)]
pub enum Tone {
    Muted,
    Success,
    Foreground,
}

pub open spec fn occurrence_tone(d: Direction, live: bool) -> Tone {
    if !live { Tone::Muted } else if d == Direction::Income { Tone::Success } else { Tone::Foreground }
}

pub fn tone_of(d: Direction, live: bool) -> (r: Tone)
    ensures
        r == occurrence_tone(d, live),
{
    if !live { Tone::Muted } else if d == Direction::Income { Tone::Success } else { Tone::Foreground }
}

/// The amounts an occurrence row states beside its signed remainder, as the
/// money type writes them.
#[derive(Clone, Debug)]
pub struct AmountTexts {
    pub fulfilled_positive: bool,
    pub fulfilled: String,
    pub expected: String,
    /// Whether the declared range is a range (low differs from high).
    pub ranged: bool,
    pub low: String,
    pub high: String,
}

/// The detail under an occurrence's amount: what was already received,
/// else the declared range, else nothing.
pub open spec fn amount_detail(a: AmountTexts) -> Option<Seq<char>> {
    if a.fulfilled_positive {
        Some(a.fulfilled@ + " of "@ + a.expected@ + " received"@)
    } else if a.ranged {
        Some(a.low@ + "–"@ + a.high@)
    } else {
        None
    }
}

pub fn amount_detail_text(a: &AmountTexts) -> (r: Option<String>)
    ensures
        match r {
            Some(t) => amount_detail(*a) == Some(t@),
            None => amount_detail(*a) is None,
        },
{
    if a.fulfilled_positive {
        let mut s = a.fulfilled.clone();
        push_str(&mut s, " of ");
        push_str(&mut s, a.expected.as_str());
        push_str(&mut s, " received");
        Some(s)
    } else if a.ranged {
        let mut s = a.low.clone();
        push_str(&mut s, "–");
        push_str(&mut s, a.high.as_str());
        Some(s)
    } else {
        None
    }
}

/// The line that answers the filters: how many movements they left and how
/// many of those still post.
pub open spec fn movements_line(shown: nat, in_window: nat, live: nat) -> Seq<char> {
    if shown == in_window {
        decimal(shown) + " movements · "@ + decimal(live) + " live"@
    } else {
        decimal(shown) + " of "@ + decimal(in_window) + " movements match the filters · "@ + decimal(live) + " live"@
    }
}

pub fn movements_line_text(shown: u64, in_window: u64, live: u64) -> (r: String)
    ensures
        r@ == movements_line(shown as nat, in_window as nat, live as nat),
{
    let mut s = String::new();
    push_decimal(&mut s, shown);
    if shown == in_window {
        push_str(&mut s, " movements · ");
    } else {
        push_str(&mut s, " of ");
        push_decimal(&mut s, in_window);
        push_str(&mut s, " movements match the filters · ");
    }
    push_decimal(&mut s, live);
    push_str(&mut s, " live");
    proof {
        assert(s@ =~= movements_line(shown as nat, in_window as nat, live as nat));
    }
    s
}

/// What a register shows in place of its rows.
#[derive(Clone, Copy, PartialEq, Eq, Debug, Structural)]
pub enum RegisterBody {
    /// Nothing has been entered yet.
    Empty,
    /// Something exists, but none of it is disclosed to the viewer.
    NoneDisclosed,
    /// Disclosed rows exist, but none matches the filters.
    NoMatch,
    /// The rows.
    Rows,
}

/// Upcoming: empty when the window and the household hold no movement at
/// all, not disclosed when series exist but none is shown, otherwise no
/// match — and the rows whenever the filters left any.
pub open spec fn upcoming_body(shown: nat, in_window: nat, household_series: nat, hidden_series: nat, visible_series: nat) -> RegisterBody {
    if shown > 0 {
        RegisterBody::Rows
    } else if in_window == 0 && household_series == 0 {
        RegisterBody::Empty
    } else if in_window == 0 && hidden_series > 0 && visible_series == 0 {
        RegisterBody::NoneDisclosed
    } else {
        RegisterBody::NoMatch
    }
}

pub fn upcoming_body_state(shown: usize, in_window: usize, household_series: usize, hidden_series: usize, visible_series: usize) -> (r: RegisterBody)
    ensures
        r == upcoming_body(shown as nat, in_window as nat, household_series as nat, hidden_series as nat, visible_series as nat),
{
    if shown > 0 {
        RegisterBody::Rows
    } else if in_window == 0 && household_series == 0 {
        RegisterBody::Empty
    } else if in_window == 0 && hidden_series > 0 && visible_series == 0 {
        RegisterBody::NoneDisclosed
    } else {
        RegisterBody::NoMatch
    }
}

/// A register of things the household holds (series, accounts, companies):
/// empty when it holds none, not disclosed when the viewer sees none of
/// them, no match when the search or filters leave no row.
pub open spec fn register_body(total: nat, visible: nat, matching: nat) -> RegisterBody {
    if total == 0 {
        RegisterBody::Empty
    } else if visible == 0 {
        RegisterBody::NoneDisclosed
    } else if matching == 0 {
        RegisterBody::NoMatch
    } else {
        RegisterBody::Rows
    }
}

pub fn register_body_state(total: usize, visible: usize, matching: usize) -> (r: RegisterBody)
    ensures
        r == register_body(total as nat, visible as nat, matching as nat),
{
    if total == 0 {
        RegisterBody::Empty
    } else if visible == 0 {
        RegisterBody::NoneDisclosed
    } else if matching == 0 {
        RegisterBody::NoMatch
    } else {
        RegisterBody::Rows
    }
}

/// How many upcoming movements a series detail previews.
pub open spec fn preview_size() -> nat { 8 }

/// The count of a series' upcoming movements not previewed, when there are more.
pub open spec fn more_than_preview(upcoming: nat) -> Option<nat> {
    if upcoming > preview_size() { Some((upcoming - preview_size()) as nat) } else { None }
}

pub fn more_in_upcoming(upcoming: usize) -> (r: Option<usize>)
    ensures
        match r {
            Some(k) => more_than_preview(upcoming as nat) == Some(k as nat),
            None => more_than_preview(upcoming as nat) is None,
        },
{
    if upcoming > 8 { Some(upcoming - 8) } else { None }
}

/// Why a series shows no upcoming movement.
#[derive(Clone, Copy, PartialEq, Eq, Debug, Structural)]
pub enum NoFutureReason {
    /// Its one occurrence is before the reconciliation date.
    OneTimeBeforeReconciliation,
    /// Its recurrence ends before the window.
    EndsBeforeWindow,
    /// No occurrence falls inside the window.
    NothingInWindow,
}

/// The reason, for a series with no upcoming movement: a one-time series
/// whose latest date precedes the reconciliation date; a recurrence whose
/// description says `until`; otherwise the window holds none.
pub open spec fn no_future_reason(one_time_latest: Option<int>, as_of: int, recurrence: Seq<char>) -> NoFutureReason {
    if one_time_latest matches Some(latest) && latest < as_of {
        NoFutureReason::OneTimeBeforeReconciliation
    } else if contains_seq(recurrence, "until"@) {
        NoFutureReason::EndsBeforeWindow
    } else {
        NoFutureReason::NothingInWindow
    }
}

/// `one_time_latest` is the latest date of a one-time series' occurrence,
/// none for a recurring one; `recurrence` is the recurrence as described.
pub fn no_future_reason_of(one_time_latest: Option<i32>, as_of: i32, recurrence: &str) -> (r: NoFutureReason)
    ensures
        r == no_future_reason(match one_time_latest { Some(l) => Some(l as int), None => None }, as_of as int, recurrence@),
{
    if let Some(latest) = one_time_latest {
        if latest < as_of {
            return NoFutureReason::OneTimeBeforeReconciliation;
        }
    }
    if contains_text(recurrence, "until") {
        NoFutureReason::EndsBeforeWindow
    } else {
        NoFutureReason::NothingInWindow
    }
}

/// Whether an occurrence's settlement and availability fall on its due date.
pub open spec fn same_day(due: int, settlement: int, availability: int) -> bool {
    due == settlement && settlement == availability
}

pub fn is_same_day(due: i32, settlement: i32, availability: i32) -> (r: bool)
    ensures
        r == same_day(due as int, settlement as int, availability as int),
{
    due == settlement && settlement == availability
}

/// The due date of an occurrence, with its original due date when it was moved.
pub open spec fn due_line(due: i32, original_due: i32) -> Seq<char> {
    if due != original_due {
        calendar_text(due, DatePattern::DayMonthYear) + " · originally "@ + calendar_text(original_due, DatePattern::DayMonthYear)
    } else {
        calendar_text(due, DatePattern::DayMonthYear)
    }
}

pub fn due_line_text(due: i32, original_due: i32) -> (r: String)
    requires
        valid_day(due as int),
        valid_day(original_due as int),
    ensures
        r@ == due_line(due, original_due),
{
    let mut s = date_text(due, DatePattern::DayMonthYear);
    if due != original_due {
        push_str(&mut s, " · originally ");
        let o = date_text(original_due, DatePattern::DayMonthYear);
        push_str(&mut s, o.as_str());
    }
    s
}

/// The availability date, said to be the same day when all four clocks coincide.
pub open spec fn available_line(availability: i32, same: bool) -> Seq<char> {
    if same {
        calendar_text(availability, DatePattern::DayMonthYear) + " · same day"@
    } else {
        calendar_text(availability, DatePattern::DayMonthYear)
    }
}

pub fn available_line_text(availability: i32, same: bool) -> (r: String)
    requires
        valid_day(availability as int),
    ensures
        r@ == available_line(availability, same),
{
    let mut s = date_text(availability, DatePattern::DayMonthYear);
    if same {
        push_str(&mut s, " · same day");
    }
    s
}

/// The subtitle of an occurrence row: whose it is, then when it was moved
/// from, the scenario it belongs to and whether it is a linked movement.
pub open spec fn occurrence_subtitle(entity: Seq<char>, due: i32, original_due: i32, scenario: Option<Seq<char>>, linked: bool) -> Seq<char> {
    let moved = if original_due != due { " · moved from "@ + calendar_text(original_due, DatePattern::DayMonthShortYear) } else { Seq::empty() };
    let plan = match scenario { Some(n) => " · scenario “"@ + n + "”"@, None => Seq::empty() };
    let link = if linked { " · linked movement"@ } else { Seq::empty() };
    entity + moved + plan + link
}

pub fn occurrence_subtitle_text(entity: &str, due: i32, original_due: i32, scenario: Option<&str>, linked: bool) -> (r: String)
    requires
        valid_day(original_due as int),
    ensures
        r@ == occurrence_subtitle(entity@, due, original_due, match scenario { Some(n) => Some(n@), None => None }, linked),
{
    let mut s = String::from_str(entity);
    let ghost e = s@;
    if original_due != due {
        push_str(&mut s, " · moved from ");
        let d = date_text(original_due, DatePattern::DayMonthShortYear);
        push_str(&mut s, d.as_str());
    }
    let ghost with_moved = s@;
    if let Some(n) = scenario {
        push_str(&mut s, " · scenario “");
        push_str(&mut s, n);
        push_str(&mut s, "”");
    }
    let ghost with_plan = s@;
    if linked {
        push_str(&mut s, " · linked movement");
    }
    proof {
        let moved = if original_due != due { " · moved from "@ + calendar_text(original_due, DatePattern::DayMonthShortYear) } else { Seq::<char>::empty() };
        let plan = match scenario { Some(n) => " · scenario “"@ + n@ + "”"@, None => Seq::<char>::empty() };
        let link = if linked { " · linked movement"@ } else { Seq::<char>::empty() };
        assert(with_moved =~= e + moved);
        assert(with_plan =~= e + moved + plan);
        assert(s@ =~= e + moved + plan + link);
    }
    s
}

/// A series' plan tag: the scenario it belongs to, or the baseline.
pub open spec fn plan_tag_of(scenario: Option<Seq<char>>) -> (TagTone, Seq<char>) {
    match scenario {
        Some(name) => (TagTone::Info, "With "@ + name),
        None => (TagTone::Secondary, "Baseline"@),
    }
}

pub fn plan_tag(scenario: Option<&str>) -> (r: TagText)
    ensures
        (r.tone, r.label@) == plan_tag_of(
            match scenario {
                Some(n) => Some(n@),
                None => None,
            },
        ),
{
    match scenario {
        Some(name) => {
            let mut s = String::new();
            push_str(&mut s, "With ");
            push_str(&mut s, name);
            proof {
                assert(s@ =~= "With "@ + name@);
            }
            TagText { tone: TagTone::Info, label: s }
        },
        None => TagText { tone: TagTone::Secondary, label: "Baseline".to_string() },
    }
}

/// The line beside the movements count: the window the expected values
/// cover and the plan they follow.
pub open spec fn window_line(as_of: i32, through: i32, scenario: Option<Seq<char>>) -> Seq<char> {
    "· Expected values from "@ + calendar_text(as_of, DatePattern::DayMonthYear) + " through "@
        + calendar_text(through, DatePattern::DayMonthYear) + ", "@ + (match scenario {
        Some(name) => "baseline plus scenario “"@ + name + "”"@,
        None => "baseline only"@,
    }) + " · the window is local to Upcoming and recorded transactions are unaffected"@
}

pub fn window_line_text(as_of: i32, through: i32, scenario: Option<&str>) -> (r: String)
    requires
        valid_day(as_of as int),
        valid_day(through as int),
    ensures
        r@ == window_line(
            as_of,
            through,
            match scenario {
                Some(n) => Some(n@),
                None => None,
            },
        ),
{
    let mut s = String::new();
    push_str(&mut s, "· Expected values from ");
    let a = date_text(as_of, DatePattern::DayMonthYear);
    push_str(&mut s, a.as_str());
    push_str(&mut s, " through ");
    let t = date_text(through, DatePattern::DayMonthYear);
    push_str(&mut s, t.as_str());
    push_str(&mut s, ", ");
    match scenario {
        Some(name) => {
            push_str(&mut s, "baseline plus scenario “");
            push_str(&mut s, name);
            push_str(&mut s, "”");
        },
        None => {
            push_str(&mut s, "baseline only");
        },
    }
    push_str(&mut s, " · the window is local to Upcoming and recorded transactions are unaffected");
    proof {
        assert(s@ =~= window_line(
            as_of,
            through,
            match scenario {
                Some(n) => Some(n@),
                None => None,
            },
        ));
    }
    s
}

// ----- the movements and the occurrence inspector -------------------------------

fn text_of(t: &str) -> (r: String)
    ensures
        r@ == t@,
{
    let mut s = String::new();
    push_str(&mut s, t);
    proof {
        assert(s@ =~= t@);
    }
    s
}

/// The totals' badge: the reading, with the scenario on show or the baseline.
pub open spec fn upcoming_badge(scenario: Option<Seq<char>>) -> Seq<char> {
    match scenario {
        Some(name) => "Expected · With "@ + name,
        None => "Expected · Baseline"@,
    }
}

pub fn upcoming_badge_text(scenario: Option<&str>) -> (r: String)
    ensures
        r@ == upcoming_badge(
            match scenario {
                Some(n) => Some(n@),
                None => None,
            },
        ),
{
    match scenario {
        Some(name) => {
            let mut s = text_of("Expected · With ");
            push_str(&mut s, name);
            s
        },
        None => text_of("Expected · Baseline"),
    }
}

/// The note under the movements when series are not disclosed.
pub open spec fn hidden_series_note(hidden: nat) -> Seq<char> {
    decimal(hidden) + " series not disclosed to this viewer; their movements are not listed."@
}

pub fn hidden_series_note_text(hidden: u64) -> (r: String)
    ensures
        r@ == hidden_series_note(hidden as nat),
{
    let mut s = String::new();
    push_decimal(&mut s, hidden);
    push_str(&mut s, " series not disclosed to this viewer; their movements are not listed.");
    proof {
        assert(s@ =~= hidden_series_note(hidden as nat));
    }
    s
}

/// The direction fact: the transfer's target by name, else the direction's
/// own label.
pub open spec fn direction_fact(d: Direction, label: Seq<char>, target: Seq<char>) -> Seq<char> {
    match d {
        Direction::Transfer(_) => "Transfer to "@ + target,
        _ => label,
    }
}

pub fn direction_fact_text(d: Direction, label: &str, target: &str) -> (r: String)
    ensures
        r@ == direction_fact(d, label@, target@),
{
    match d {
        Direction::Transfer(_) => {
            let mut s = text_of("Transfer to ");
            push_str(&mut s, target);
            s
        },
        _ => text_of(label),
    }
}

/// The link fact of an occurrence with a linked movement.
pub open spec fn linked_fact(name: Seq<char>) -> Seq<char> {
    "Linked movement on "@ + name
}

pub fn linked_fact_text(name: &str) -> (r: String)
    ensures
        r@ == linked_fact(name@),
{
    let mut s = text_of("Linked movement on ");
    push_str(&mut s, name);
    s
}

/// The plan fact of a scenario's occurrence.
pub open spec fn scenario_fact(name: Seq<char>) -> Seq<char> {
    "Scenario “"@ + name + "”"@
}

pub fn scenario_fact_text(name: &str) -> (r: String)
    ensures
        r@ == scenario_fact(name@),
{
    let mut s = text_of("Scenario “");
    push_str(&mut s, name);
    push_str(&mut s, "”");
    s
}

/// The record command: a receipt for income, a payment otherwise.
pub open spec fn record_label(d: Direction) -> Seq<char> {
    if d == Direction::Income { "Record receipt…"@ } else { "Record payment…"@ }
}

pub fn record_label_text(d: Direction) -> (r: String)
    ensures
        r@ == record_label(d),
{
    if d == Direction::Income { text_of("Record receipt…") } else { text_of("Record payment…") }
}

/// The expected amount, with the declared range when it is one (`sep` is
/// ` · declared ` in the inspector and ` expected · ` on a series).
pub open spec fn expected_amount(expected: Seq<char>, range: Option<(Seq<char>, Seq<char>)>, sep: Seq<char>) -> Seq<char> {
    match range {
        Some((low, high)) => expected + sep + low + " – "@ + high,
        None => expected,
    }
}

pub fn expected_amount_text(expected: &str, range: Option<(&str, &str)>, sep: &str) -> (r: String)
    ensures
        r@ == expected_amount(
            expected@,
            match range {
                Some((l, h)) => Some((l@, h@)),
                None => None,
            },
            sep@,
        ),
{
    let mut s = text_of(expected);
    if let Some((low, high)) = range {
        push_str(&mut s, sep);
        push_str(&mut s, low);
        push_str(&mut s, " – ");
        push_str(&mut s, high);
    }
    proof {
        assert(s@ =~= expected_amount(
            expected@,
            match range {
                Some((l, h)) => Some((l@, h@)),
                None => None,
            },
            sep@,
        ));
    }
    s
}

/// The inspector's title.
pub open spec fn selected_title(label: Seq<char>) -> Seq<char> {
    "Selected: "@ + label
}

pub fn selected_title_text(label: &str) -> (r: String)
    ensures
        r@ == selected_title(label@),
{
    let mut s = text_of("Selected: ");
    push_str(&mut s, label);
    s
}

/// Why the original due date identifies an occurrence.
pub open spec fn identity_note(original_due: i32) -> Seq<char> {
    "Exceptions and reconciliation are keyed on "@ + calendar_text(original_due, DatePattern::DayMonthYear)
        + ", even after a move. An expected receipt is not usable before its availability date."@
}

pub fn identity_note_text(original_due: i32) -> (r: String)
    requires
        valid_day(original_due as int),
    ensures
        r@ == identity_note(original_due),
{
    let mut s = text_of("Exceptions and reconciliation are keyed on ");
    let d = date_text(original_due, DatePattern::DayMonthYear);
    push_str(&mut s, d.as_str());
    push_str(&mut s, ", even after a move. An expected receipt is not usable before its availability date.");
    proof {
        assert(s@ =~= identity_note(original_due));
    }
    s
}

// ----- a series' detail --------------------------------------------------------

/// A series' category, or that it has none.
pub open spec fn category_fact(category: Seq<char>) -> Seq<char> {
    if category.len() == 0 { "Uncategorised"@ } else { category }
}

pub fn category_fact_text(category: &str) -> (r: String)
    ensures
        r@ == category_fact(category@),
{
    if category.unicode_len() == 0 { text_of("Uncategorised") } else { text_of(category) }
}

/// A lag in days.
pub open spec fn lag_fact(days: nat) -> Seq<char> {
    decimal(days) + " days"@
}

pub fn lag_fact_text(days: u64) -> (r: String)
    ensures
        r@ == lag_fact(days as nat),
{
    let mut s = String::new();
    push_decimal(&mut s, days);
    push_str(&mut s, " days");
    proof {
        assert(s@ =~= lag_fact(days as nat));
    }
    s
}

/// What a linked movement also does.
pub open spec fn also_posts(name: Seq<char>) -> Seq<char> {
    "Also posts on "@ + name
}

pub fn also_posts_text(name: &str) -> (r: String)
    ensures
        r@ == also_posts(name@),
{
    let mut s = text_of("Also posts on ");
    push_str(&mut s, name);
    s
}

/// What an exception does to its occurrence.
#[derive(Clone, Debug)]
pub enum ExceptionKind {
    Skip,
    Cancel,
    /// Moved to a day.
    Move(i32),
    /// A different amount, as described.
    Amount(String),
}

pub open spec fn exception_effect(e: ExceptionKind) -> Seq<char> {
    match e {
        ExceptionKind::Skip => "Skipped — posts nothing"@,
        ExceptionKind::Cancel => "Cancelled — posts nothing"@,
        ExceptionKind::Move(to) => "Moved to "@ + calendar_text(to, DatePattern::DayMonthYear),
        ExceptionKind::Amount(a) => "Amount "@ + a@ + " for this occurrence only"@,
    }
}

pub fn exception_effect_text(e: &ExceptionKind) -> (r: String)
    requires
        e matches ExceptionKind::Move(to) ==> valid_day(to as int),
    ensures
        r@ == exception_effect(*e),
{
    match e {
        ExceptionKind::Skip => text_of("Skipped — posts nothing"),
        ExceptionKind::Cancel => text_of("Cancelled — posts nothing"),
        ExceptionKind::Move(to) => {
            let mut s = text_of("Moved to ");
            let d = date_text(*to, DatePattern::DayMonthYear);
            push_str(&mut s, d.as_str());
            s
        },
        ExceptionKind::Amount(a) => {
            let mut s = text_of("Amount ");
            push_str(&mut s, a.as_str());
            push_str(&mut s, " for this occurrence only");
            proof {
                assert(s@ =~= exception_effect(*e));
            }
            s
        },
    }
}

/// A previewed occurrence's due date, marked when it was moved.
pub open spec fn preview_due(due: i32, original_due: i32) -> Seq<char> {
    calendar_text(due, DatePattern::DayMonthYear) + if due != original_due { " · moved"@ } else { Seq::empty() }
}

pub fn preview_due_text(due: i32, original_due: i32) -> (r: String)
    requires
        valid_day(due as int),
    ensures
        r@ == preview_due(due, original_due),
{
    let mut s = date_text(due, DatePattern::DayMonthYear);
    if due != original_due {
        push_str(&mut s, " · moved");
    }
    proof {
        assert(s@ =~= preview_due(due, original_due));
    }
    s
}

/// Why a series shows no upcoming movement, in words: its one occurrence
/// (as described) precedes the reconciliation date, its recurrence (as
/// described) ends before the window, or the window holds none.
pub open spec fn no_future_line(reason: NoFutureReason, occurrence: Seq<char>, recurrence: Seq<char>, as_of: i32, through: i32) -> Seq<char> {
    "No upcoming movement. "@ + match reason {
        NoFutureReason::OneTimeBeforeReconciliation => "Its one occurrence on "@ + occurrence
            + " is before the reconciliation date."@,
        NoFutureReason::EndsBeforeWindow => "The series ends before the window: "@ + recurrence + "."@,
        NoFutureReason::NothingInWindow => "No occurrence falls between "@ + calendar_text(as_of, DatePattern::DayMonthYear)
            + " and "@ + calendar_text(through, DatePattern::DayMonthYear) + "."@,
    }
}

pub fn no_future_line_text(reason: NoFutureReason, occurrence: &str, recurrence: &str, as_of: i32, through: i32) -> (r: String)
    requires
        valid_day(as_of as int),
        valid_day(through as int),
    ensures
        r@ == no_future_line(reason, occurrence@, recurrence@, as_of, through),
{
    let mut s = text_of("No upcoming movement. ");
    match reason {
        NoFutureReason::OneTimeBeforeReconciliation => {
            push_str(&mut s, "Its one occurrence on ");
            push_str(&mut s, occurrence);
            push_str(&mut s, " is before the reconciliation date.");
        },
        NoFutureReason::EndsBeforeWindow => {
            push_str(&mut s, "The series ends before the window: ");
            push_str(&mut s, recurrence);
            push_str(&mut s, ".");
        },
        NoFutureReason::NothingInWindow => {
            push_str(&mut s, "No occurrence falls between ");
            let a = date_text(as_of, DatePattern::DayMonthYear);
            push_str(&mut s, a.as_str());
            push_str(&mut s, " and ");
            let t = date_text(through, DatePattern::DayMonthYear);
            push_str(&mut s, t.as_str());
            push_str(&mut s, ".");
        },
    }
    proof {
        assert(s@ =~= no_future_line(reason, occurrence@, recurrence@, as_of, through));
    }
    s
}

/// The line under the preview when the series has more upcoming movements.
pub open spec fn more_note(more: nat) -> Seq<char> {
    decimal(more) + " more in Upcoming."@
}

pub fn more_note_text(more: u64) -> (r: String)
    ensures
        r@ == more_note(more as nat),
{
    let mut s = String::new();
    push_decimal(&mut s, more);
    push_str(&mut s, " more in Upcoming.");
    proof {
        assert(s@ =~= more_note(more as nat));
    }
    s
}

/// A transaction matched to one of the series' occurrences: the occurrence's
/// original due day, the amount, and the transaction's day and description
/// when it still exists.
pub open spec fn matched_line(original_due: i32, amount: Seq<char>, actual: Option<(i32, Seq<char>)>) -> Seq<char> {
    "Due "@ + calendar_text(original_due, DatePattern::DayMonthYear) + " — "@ + amount + " matched to the transaction of "@
        + match actual {
        Some((day, description)) => calendar_text(day, DatePattern::DayMonthYear) + if description.len() == 0 {
            Seq::empty()
        } else {
            " “"@ + description + "”"@
        },
        None => Seq::empty(),
    }
}

pub fn matched_line_text(original_due: i32, amount: &str, actual: Option<(i32, &str)>) -> (r: String)
    requires
        valid_day(original_due as int),
        actual matches Some((day, _)) ==> valid_day(day as int),
    ensures
        r@ == matched_line(
            original_due,
            amount@,
            match actual {
                Some((d, t)) => Some((d, t@)),
                None => None,
            },
        ),
{
    let mut s = text_of("Due ");
    let d = date_text(original_due, DatePattern::DayMonthYear);
    push_str(&mut s, d.as_str());
    push_str(&mut s, " — ");
    push_str(&mut s, amount);
    push_str(&mut s, " matched to the transaction of ");
    if let Some((day, description)) = actual {
        let t = date_text(day, DatePattern::DayMonthYear);
        push_str(&mut s, t.as_str());
        if description.unicode_len() > 0 {
            push_str(&mut s, " “");
            push_str(&mut s, description);
            push_str(&mut s, "”");
        }
    }
    proof {
        assert(s@ =~= matched_line(
            original_due,
            amount@,
            match actual {
                Some((d, t)) => Some((d, t@)),
                None => None,
            },
        ));
    }
    s
}

/// Who may see a series: whoever sees its account.
pub open spec fn series_access(account: Seq<char>) -> Seq<char> {
    "Whoever can see "@ + account + " can see this series and its occurrences. A series carries no policy of its own."@
}

pub fn series_access_text(account: &str) -> (r: String)
    ensures
        r@ == series_access(account@),
{
    let mut s = text_of("Whoever can see ");
    push_str(&mut s, account);
    push_str(&mut s, " can see this series and its occurrences. A series carries no policy of its own.");
    proof {
        assert(s@ =~= series_access(account@));
    }
    s
}

// ----- recorded transactions ---------------------------------------------------

/// The note under the transactions when some are on undisclosed accounts and
/// others are listed; none otherwise.
pub open spec fn hidden_actuals_note(hidden: nat, visible: nat) -> Option<Seq<char>> {
    if hidden > 0 && visible > 0 {
        Some(decimal(hidden) + " transactions on accounts not disclosed to this viewer are not listed."@)
    } else {
        None
    }
}

pub fn hidden_actuals_note_text(hidden: u64, visible: u64) -> (r: Option<String>)
    ensures
        r is Some <==> hidden_actuals_note(hidden as nat, visible as nat) is Some,
        r matches Some(t) ==> hidden_actuals_note(hidden as nat, visible as nat) == Some(t@),
{
    if hidden > 0 && visible > 0 {
        let mut s = String::new();
        push_decimal(&mut s, hidden);
        push_str(&mut s, " transactions on accounts not disclosed to this viewer are not listed.");
        proof {
            assert(s@ =~= decimal(hidden as nat) + " transactions on accounts not disclosed to this viewer are not listed."@);
        }
        Some(s)
    } else {
        None
    }
}

/// A transaction's link, after the series' name: its original due day and,
/// when the occurrence was moved, the day it was moved to.
pub open spec fn link_due(original_due: i32, moved_to: Option<i32>) -> Seq<char> {
    "due "@ + calendar_text(original_due, DatePattern::DayMonthYear) + match moved_to {
        Some(d) => " (now "@ + calendar_text(d, DatePattern::DayMonthYear) + ")"@,
        None => Seq::empty(),
    }
}

pub fn link_due_text(original_due: i32, moved_to: Option<i32>) -> (r: String)
    requires
        valid_day(original_due as int),
        moved_to matches Some(d) ==> valid_day(d as int),
    ensures
        r@ == link_due(original_due, moved_to),
{
    let mut s = text_of("due ");
    let d = date_text(original_due, DatePattern::DayMonthYear);
    push_str(&mut s, d.as_str());
    if let Some(m) = moved_to {
        push_str(&mut s, " (now ");
        let t = date_text(m, DatePattern::DayMonthYear);
        push_str(&mut s, t.as_str());
        push_str(&mut s, ")");
    }
    proof {
        assert(s@ =~= link_due(original_due, moved_to));
    }
    s
}

// ----- the selected transaction ---------------------------------------------------

/// What the selected transaction's inspector says, with what its amounts
/// decide: whether anything is left to match.
#[derive(Clone, Debug)]
pub struct ActualFacts {
    /// `Selected: −850.00 on 03 Feb 2025`.
    pub title: String,
    /// Its description, or `Manual entry`.
    pub description: String,
    /// What is left unallocated, or `Nothing left to match`.
    pub unallocated: String,
    /// Whether it can be matched to a planned occurrence: something is left.
    pub can_match: bool,
}

pub open spec fn actual_title(amount: Seq<char>, day: i32) -> Seq<char> {
    "Selected: "@ + amount + " on "@ + calendar_text(day, DatePattern::DayMonthYear)
}

pub open spec fn description_fact(description: Seq<char>) -> Seq<char> {
    if description.len() == 0 { "Manual entry"@ } else { description }
}

pub open spec fn unallocated_fact(unallocated: int, written: Seq<char>) -> Seq<char> {
    if unallocated > 0 { written } else { "Nothing left to match"@ }
}

/// `amount` and `unallocated_text` are written by the money type;
/// `unallocated` is the unallocated amount in minor units.
pub fn actual_facts(day: i32, amount: &str, description: &str, unallocated: i64, unallocated_text: &str) -> (r: ActualFacts)
    requires
        valid_day(day as int),
    ensures
        r.title@ == actual_title(amount@, day),
        r.description@ == description_fact(description@),
        r.unallocated@ == unallocated_fact(unallocated as int, unallocated_text@),
        r.can_match == (unallocated > 0),
{
    let mut title = String::new();
    push_str(&mut title, "Selected: ");
    push_str(&mut title, amount);
    push_str(&mut title, " on ");
    let d = date_text(day, DatePattern::DayMonthYear);
    push_str(&mut title, d.as_str());
    proof { assert(title@ =~= actual_title(amount@, day)); }
    let description_text = if description.unicode_len() == 0 { String::from_str("Manual entry") } else { String::from_str(description) };
    let left = if unallocated > 0 { String::from_str(unallocated_text) } else { String::from_str("Nothing left to match") };
    ActualFacts { title, description: description_text, unallocated: left, can_match: unallocated > 0 }
}

/// A reconciliation link of the selected transaction: the amount it matched.
pub open spec fn matched_to(amount: Seq<char>) -> Seq<char> {
    amount + " matched to"@
}

pub fn matched_to_text(amount: &str) -> (r: String)
    ensures
        r@ == matched_to(amount@),
{
    let mut s = String::new();
    push_str(&mut s, amount);
    push_str(&mut s, " matched to");
    proof { assert(s@ =~= matched_to(amount@)); }
    s
}

// ----- a series' detail ---------------------------------------------------------------

/// The positions of a series' occurrences among the first `k` in the window,
/// in order.
pub open spec fn series_positions(series_of: Seq<u64>, id: u64, k: nat) -> Seq<usize>
    decreases k,
{
    if k == 0 || k > series_of.len() {
        Seq::empty()
    } else {
        let p = series_positions(series_of, id, (k - 1) as nat);
        if series_of[k - 1] == id { p.push((k - 1) as usize) } else { p }
    }
}

/// A series' upcoming movements in the window, from the series of each of
/// the window's occurrences: the previewed ones (the first eight, by their
/// position among the window's occurrences) and how many there are in all.
pub fn series_preview(series_of: &Vec<u64>, id: u64) -> (r: (Vec<usize>, usize))
    ensures
        r.1 == series_positions(series_of@, id, series_of@.len()).len(),
        r.0@ == series_positions(series_of@, id, series_of@.len()).take(
            if r.1 > preview_size() { preview_size() as int } else { r.1 as int },
        ),
{
    let mut all: Vec<usize> = Vec::new();
    let n = series_of.len();
    for i in 0..n
        invariant
            n == series_of@.len(),
            all@ == series_positions(series_of@, id, i as nat),
            all@.len() <= i,
    {
        if series_of[i] == id {
            all.push(i);
        }
    }
    let total = all.len();
    let shown = if total > 8 { 8 } else { total };
    let mut preview: Vec<usize> = Vec::new();
    for j in 0..shown
        invariant
            shown <= all@.len(),
            preview@ == all@.take(j as int),
    {
        preview.push(all[j]);
        proof { assert(all@.take(j + 1) =~= all@.take(j as int).push(all@[j as int])); }
    }
    (preview, total)
}

/// The scope of an assumption: the series it applies to, and the person it
/// is private to, if any.
#[derive(Clone, Debug)]
pub struct AssumptionScope {
    pub applies_to: Vec<u64>,
    pub private_to: Option<u64>,
}

/// Whether a series' detail lists an assumption: it applies to the series,
/// and it is not private to someone other than the viewer.
pub open spec fn listed_for_series(a: AssumptionScope, id: u64, viewer: u64) -> bool {
    a.applies_to@.contains(id) && (a.private_to matches Some(p) ==> p == viewer)
}

pub open spec fn series_assumptions_of(scopes: Seq<AssumptionScope>, id: u64, viewer: u64, k: nat) -> Seq<usize>
    decreases k,
{
    if k == 0 || k > scopes.len() {
        Seq::empty()
    } else {
        let p = series_assumptions_of(scopes, id, viewer, (k - 1) as nat);
        if listed_for_series(scopes[k - 1], id, viewer) { p.push((k - 1) as usize) } else { p }
    }
}

fn applies_to_series(ids: &Vec<u64>, id: u64) -> (r: bool)
    ensures
        r == ids@.contains(id),
{
    let n = ids.len();
    for i in 0..n
        invariant
            n == ids@.len(),
            forall|j: int| 0 <= j < i ==> ids@[j] != id,
    {
        if ids[i] == id {
            proof { assert(ids@.contains(ids@[i as int])); }
            return true;
        }
    }
    false
}

/// The assumptions a series' detail lists, by position, in order.
pub fn series_assumptions(scopes: &Vec<AssumptionScope>, id: u64, viewer: u64) -> (r: Vec<usize>)
    ensures
        r@ == series_assumptions_of(scopes@, id, viewer, scopes@.len()),
{
    let mut out: Vec<usize> = Vec::new();
    let n = scopes.len();
    for i in 0..n
        invariant
            n == scopes@.len(),
            out@ == series_assumptions_of(scopes@, id, viewer, i as nat),
    {
        let visible = match scopes[i].private_to {
            Some(p) => p == viewer,
            None => true,
        };
        if applies_to_series(&scopes[i].applies_to, id) && visible {
            out.push(i);
        }
    }
    out
}

/// The badge of a series' upcoming movements: the window they run through.
pub open spec fn expected_through(through: i32) -> Seq<char> {
    "Expected · through "@ + calendar_text(through, DatePattern::DayMonthYear)
}

pub fn expected_through_text(through: i32) -> (r: String)
    requires
        valid_day(through as int),
    ensures
        r@ == expected_through(through),
{
    let mut s = String::new();
    push_str(&mut s, "Expected · through ");
    let d = date_text(through, DatePattern::DayMonthYear);
    push_str(&mut s, d.as_str());
    proof { assert(s@ =~= expected_through(through)); }
    s
}

// ----- the upcoming register's state --------------------------------------------------

/// What identifies an occurrence across moves: its series and its original due date.
#[derive(Clone, Copy, PartialEq, Eq, Debug, Structural)]
pub struct OccurrenceKey {
    pub series: u64,
    pub original_due: i32,
}

/// The first occurrence of the window with the selected key, whose
/// inspector opens; none when nothing is selected or it is not in the window.
pub open spec fn selected_position(keys: Seq<OccurrenceKey>, selected: Option<OccurrenceKey>) -> Option<int> {
    match selected {
        None => None,
        Some(k) => if exists|i: int| 0 <= i < keys.len() && keys[i] == k {
            Some(choose|i: int| 0 <= i < keys.len() && keys[i] == k && forall|j: int| 0 <= j < i ==> keys[j] != k)
        } else {
            None
        },
    }
}

pub fn selected_occurrence(keys: &Vec<OccurrenceKey>, selected: Option<OccurrenceKey>) -> (r: Option<usize>)
    ensures
        match selected_position(keys@, selected) {
            Some(i) => r == Some(i as usize),
            None => r is None,
        },
{
    match selected {
        None => None,
        Some(k) => {
            let n = keys.len();
            for i in 0..n
                invariant
                    n == keys@.len(),
                    selected == Some(k),
                    forall|j: int| 0 <= j < i ==> keys@[j] != k,
            {
                if keys[i] == k {
                    proof {
                        assert(keys@[i as int] == k);
                        assert(0 <= i < keys@.len() && keys@[i as int] == k && forall|j: int| 0 <= j < i ==> keys@[j] != k);
                        let c = choose|c: int| 0 <= c < keys@.len() && keys@[c] == k && forall|j: int| 0 <= j < c ==> keys@[j] != k;
                        if c < i {
                            assert(keys@[c] != k);
                        } else if c > i {
                            assert(keys@[i as int] != k);
                        }
                    }
                    return Some(i);
                }
            }
            None
        },
    }
}

/// Whether the upcoming register is filtered: a choice other than `All` (row
/// zero) in any of its controls, or a series picked.
pub open spec fn upcoming_filtered(choices: Seq<usize>, series_picked: bool) -> bool {
    series_picked || exists|i: int| 0 <= i < choices.len() && choices[i] > 0
}

pub fn upcoming_filtering(choices: &Vec<usize>, series_picked: bool) -> (r: bool)
    ensures
        r == upcoming_filtered(choices@, series_picked),
{
    if series_picked {
        return true;
    }
    let n = choices.len();
    for i in 0..n
        invariant
            n == choices@.len(),
            forall|j: int| 0 <= j < i ==> choices@[j] == 0,
    {
        if choices[i] > 0 {
            return true;
        }
    }
    false
}

/// How many of the listed occurrences still post.
pub open spec fn live_among(live: Seq<bool>) -> nat
    decreases live.len(),
{
    if live.len() == 0 { 0 } else { live_among(live.drop_last()) + if live.last() { 1nat } else { 0nat } }
}

pub fn live_count(live: &Vec<bool>) -> (r: usize)
    ensures
        r == live_among(live@),
{
    let mut count: usize = 0;
    let n = live.len();
    for i in 0..n
        invariant
            n == live@.len(),
            count == live_among(live@.take(i as int)),
            count <= i,
    {
        proof { assert(live@.take(i + 1).drop_last() =~= live@.take(i as int)); }
        if live[i] {
            count = count + 1;
        }
    }
    proof { assert(live@.take(n as int) =~= live@); }
    count
}

// ----- the series register ---------------------------------------------------------

/// The series register's search as it is read: trimmed, then lowercased.
pub open spec fn series_query(search: Seq<char>) -> Seq<char> {
    lowercased(trimmed(search))
}

/// The positions of the series the register lists, in order: every visible
/// series when there is no search, else those whose lowercased name holds it.
pub open spec fn series_rows(names: Seq<String>, query: Seq<char>, k: nat) -> Seq<usize>
    decreases k,
{
    if k == 0 || k > names.len() {
        Seq::empty()
    } else {
        let p = series_rows(names, query, (k - 1) as nat);
        if query.len() == 0 || contains_seq(lowercased(names[k - 1]@), query) { p.push((k - 1) as usize) } else { p }
    }
}

/// The series register over the visible series' names, and whether it is
/// searching.
pub fn series_register(names: &Vec<String>, search: &str) -> (r: (Vec<usize>, bool))
    ensures
        r.0@ == series_rows(names@, series_query(search@), names@.len()),
        r.1 == (series_query(search@).len() > 0),
{
    let t = trim(search);
    let query = lowercase(t.as_str());
    let searching = query.unicode_len() > 0;
    let mut rows: Vec<usize> = Vec::new();
    let n = names.len();
    for i in 0..n
        invariant
            n == names@.len(),
            query@ == series_query(search@),
            searching == (query@.len() > 0),
            rows@ == series_rows(names@, query@, i as nat),
    {
        let keep = if !searching {
            true
        } else {
            let name = lowercase(names[i].as_str());
            contains_text(name.as_str(), query.as_str())
        };
        if keep {
            rows.push(i);
        }
    }
    (rows, searching)
}

// ----- whether a series' detail may be shown ----------------------------------------------

/// What a series' detail screen shows.
#[derive(Clone, Debug)]
pub enum SeriesDetail {
    /// The household no longer holds the series: a heading and a note.
    Unknown { title: String, note: String },
    /// The viewer may not see the series, or it is of a plan not on show:
    /// a plain heading and a notice, and no fact of the series, not even its
    /// name.
    NotDisclosed { title: String, notice: String },
    /// The series' own detail.
    Shown,
}

pub open spec fn series_detail_of(known: bool, visible: Seq<u64>, id: u64) -> (int, Seq<char>, Seq<char>) {
    if !known {
        (0, "Unknown series"@, "This series no longer exists."@)
    } else if !visible.contains(id) {
        (1, "Series"@, "Its account or company is not disclosed to this viewer, or it belongs to a plan not on show."@)
    } else {
        (2, Seq::empty(), Seq::empty())
    }
}

/// Whether the detail is shown: `known` is whether the household holds the series, `visible`
/// the series the timeline shows this viewer under the plan on show.
pub fn series_detail(known: bool, visible: &Vec<u64>, id: u64) -> (r: SeriesDetail)
    ensures
        ({
            let (state, title, text) = series_detail_of(known, visible@, id);
            match r {
                SeriesDetail::Unknown { title: t, note: n } => state == 0 && t@ == title && n@ == text,
                SeriesDetail::NotDisclosed { title: t, notice: n } => state == 1 && t@ == title && n@ == text,
                SeriesDetail::Shown => state == 2,
            }
        }),
{
    if !known {
        return SeriesDetail::Unknown {
            title: String::from_str("Unknown series"),
            note: String::from_str("This series no longer exists."),
        };
    }
    let n = visible.len();
    for i in 0..n
        invariant
            n == visible@.len(),
            known,
            forall|j: int| 0 <= j < i ==> visible@[j] != id,
    {
        if visible[i] == id {
            proof { assert(visible@.contains(visible@[i as int])); }
            return SeriesDetail::Shown;
        }
    }
    SeriesDetail::NotDisclosed {
        title: String::from_str("Series"),
        notice: String::from_str("Its account or company is not disclosed to this viewer, or it belongs to a plan not on show."),
    }
}

} // verus!
