//! Earmarks: which earmarks each tab lists, how an earmark's coverage and
//! status read, and the sentences of the earmarks and liquidity screens.

use vstd::prelude::*;
use crate::text::{DatePattern, calendar_text, date_text, decimal, push_decimal, push_str, valid_day};

verus! {

/// How an earmark's amount relates to the account's other holds.
#[derive(Clone, Debug)]
pub enum Coverage {
    /// A separate amount, added to the others.
    Disjoint,
    /// The amount includes the bank's required minimum.
    CoversAccountMinimum,
    /// Inside another earmark: its id, and its name when it still exists.
    NestedIn { outer: u64, outer_name: Option<String> },
}

/// The name an enclosing earmark goes by: its name, or its id when it is gone.
pub open spec fn outer_label(outer: u64, outer_name: Option<String>) -> Seq<char> {
    match outer_name {
        Some(n) => n@,
        None => decimal(outer as nat),
    }
}

/// The earmarks register's reading of a coverage.
pub open spec fn coverage_reading(c: Coverage) -> Seq<char> {
    match c {
        Coverage::Disjoint => "Separate amount"@,
        Coverage::CoversAccountMinimum => "Includes the bank minimum"@,
        Coverage::NestedIn { outer, outer_name } => "Inside "@ + outer_label(outer, outer_name),
    }
}

/// The liquidity screen's reading of a coverage.
pub open spec fn coverage_detail(c: Coverage) -> Seq<char> {
    match c {
        Coverage::Disjoint => "Disjoint — additive"@,
        Coverage::CoversAccountMinimum => "Includes the bank minimum"@,
        Coverage::NestedIn { outer, outer_name } => "Nested in "@ + outer_label(outer, outer_name),
    }
}

fn push_outer(s: &mut String, outer: u64, outer_name: &Option<String>)
    ensures
        final(s)@ == old(s)@ + outer_label(outer, *outer_name),
{
    match outer_name {
        Some(n) => push_str(s, n.as_str()),
        None => push_decimal(s, outer),
    }
}

pub fn coverage_text(c: &Coverage) -> (r: String)
    ensures
        r@ == coverage_reading(*c),
{
    match c {
        Coverage::Disjoint => "Separate amount".to_string(),
        Coverage::CoversAccountMinimum => "Includes the bank minimum".to_string(),
        Coverage::NestedIn { outer, outer_name } => {
            let mut s = String::new();
            push_str(&mut s, "Inside ");
            push_outer(&mut s, *outer, outer_name);
            proof {
                assert(s@ =~= coverage_reading(*c));
            }
            s
        },
    }
}

pub fn coverage_detail_text(c: &Coverage) -> (r: String)
    ensures
        r@ == coverage_detail(*c),
{
    match c {
        Coverage::Disjoint => "Disjoint — additive".to_string(),
        Coverage::CoversAccountMinimum => "Includes the bank minimum".to_string(),
        Coverage::NestedIn { outer, outer_name } => {
            let mut s = String::new();
            push_str(&mut s, "Nested in ");
            push_outer(&mut s, *outer, outer_name);
            proof {
                assert(s@ =~= coverage_detail(*c));
            }
            s
        },
    }
}

/// An earmark's status: when it was released, else its purpose, else `Active`.
pub open spec fn earmark_status(released_on: Option<i32>, purpose: Seq<char>) -> Seq<char> {
    match released_on {
        Some(day) => "Released "@ + calendar_text(day, DatePattern::DayMonthYear),
        None => if purpose.len() == 0 { "Active"@ } else { purpose },
    }
}

pub fn earmark_status_text(released_on: Option<i32>, purpose: &str) -> (r: String)
    requires
        released_on matches Some(day) ==> valid_day(day as int),
    ensures
        r@ == earmark_status(released_on, purpose@),
{
    match released_on {
        Some(day) => {
            let mut s = String::new();
            push_str(&mut s, "Released ");
            let d = date_text(day, DatePattern::DayMonthYear);
            push_str(&mut s, d.as_str());
            proof {
                assert(s@ =~= earmark_status(released_on, purpose@));
            }
            s
        },
        None => {
            let mut s = String::new();
            if purpose.unicode_len() == 0 {
                push_str(&mut s, "Active");
            } else {
                push_str(&mut s, purpose);
            }
            proof {
                assert(s@ =~= earmark_status(released_on, purpose@));
            }
            s
        },
    }
}

/// The liquidity screen's short status: released on a day and month, or active.
pub open spec fn short_status(released_on: Option<i32>) -> Seq<char> {
    match released_on {
        Some(day) => "released "@ + calendar_text(day, DatePattern::DayMonth),
        None => "active"@,
    }
}

pub fn short_status_text(released_on: Option<i32>) -> (r: String)
    requires
        released_on matches Some(day) ==> valid_day(day as int),
    ensures
        r@ == short_status(released_on),
{
    match released_on {
        Some(day) => {
            let mut s = String::new();
            push_str(&mut s, "released ");
            let d = date_text(day, DatePattern::DayMonth);
            push_str(&mut s, d.as_str());
            proof {
                assert(s@ =~= short_status(released_on));
            }
            s
        },
        None => "active".to_string(),
    }
}

/// The positions among `released` (each earmark's release day, if any) of
/// the earmarks a tab lists: released ones on the released tab, the others
/// on the active tab.
pub open spec fn tab_positions(released: Seq<Option<i32>>, released_tab: bool) -> Seq<usize>
    decreases released.len(),
{
    if released.len() == 0 {
        Seq::empty()
    } else {
        let prev = tab_positions(released.drop_last(), released_tab);
        if (released.last() is Some) == released_tab { prev.push((released.len() - 1) as usize) } else { prev }
    }
}

pub fn tab_earmarks(released: &Vec<Option<i32>>, released_tab: bool) -> (r: Vec<usize>)
    ensures
        r@ == tab_positions(released@, released_tab),
{
    let mut kept: Vec<usize> = Vec::new();
    let n = released.len();
    for i in 0..n
        invariant
            n == released@.len(),
            kept@ == tab_positions(released@.take(i as int), released_tab),
    {
        if released[i].is_some() == released_tab {
            kept.push(i);
        }
        proof {
            assert(released@.take(i + 1).drop_last() =~= released@.take(i as int));
        }
    }
    proof {
        assert(released@.take(n as int) =~= released@);
    }
    kept
}

/// Each earmark is listed on exactly one of the two tabs.
pub proof fn tabs_split_earmarks(released: Seq<Option<i32>>)
    requires
        released.len() <= usize::MAX,
    ensures
        tab_positions(released, true).len() + tab_positions(released, false).len() == released.len(),
    decreases released.len(),
{
    if released.len() > 0 {
        tabs_split_earmarks(released.drop_last());
    }
}

/// What an empty tab says.
pub open spec fn empty_tab_note(released_tab: bool, is_household: bool) -> Seq<char> {
    if released_tab {
        "No released earmarks."@
    } else if is_household {
        "No earmarks on the household's accounts."@
    } else {
        "No earmarks on this boundary's accounts."@
    }
}

pub fn empty_tab_note_text(released_tab: bool, is_household: bool) -> (r: String)
    ensures
        r@ == empty_tab_note(released_tab, is_household),
{
    if released_tab {
        "No released earmarks.".to_string()
    } else if is_household {
        "No earmarks on the household's accounts.".to_string()
    } else {
        "No earmarks on this boundary's accounts.".to_string()
    }
}

/// The hint on `Add earmark…`: why it is disabled when the viewer sees no
/// personal account in full, else what it does.
pub open spec fn add_earmark_hint(eligible: nat) -> Seq<char> {
    if eligible == 0 { "Earmarks need a personal account you see in full"@ } else { "Set money aside for a purpose"@ }
}

pub fn add_earmark_hint_text(eligible: usize) -> (r: String)
    ensures
        r@ == add_earmark_hint(eligible as nat),
{
    if eligible == 0 {
        "Earmarks need a personal account you see in full".to_string()
    } else {
        "Set money aside for a purpose".to_string()
    }
}

/// The line under `Spendable now`: the deficit when the floor is breached.
pub open spec fn spendable_note(deficit_positive: bool, deficit: Seq<char>) -> Seq<char> {
    if deficit_positive {
        "Shown as 0: the floor is breached by "@ + deficit
    } else {
        "No deficit against the hard floor"@
    }
}

pub fn spendable_note_text(deficit_positive: bool, deficit: &str) -> (r: String)
    ensures
        r@ == spendable_note(deficit_positive, deficit@),
{
    if deficit_positive {
        let mut s = String::new();
        push_str(&mut s, "Shown as 0: the floor is breached by ");
        push_str(&mut s, deficit);
        proof {
            assert(s@ =~= spendable_note(deficit_positive, deficit@));
        }
        s
    } else {
        "No deficit against the hard floor".to_string()
    }
}

/// The first breach of the floor, or that there is none within the horizon.
pub open spec fn first_breach_line(first_breach: Option<i32>) -> Seq<char> {
    match first_breach {
        Some(day) => calendar_text(day, DatePattern::DayMonthYear),
        None => "None through the horizon"@,
    }
}

pub fn first_breach_line_text(first_breach: Option<i32>) -> (r: String)
    requires
        first_breach matches Some(day) ==> valid_day(day as int),
    ensures
        r@ == first_breach_line(first_breach),
{
    match first_breach {
        Some(day) => date_text(day, DatePattern::DayMonthYear),
        None => "None through the horizon".to_string(),
    }
}

/// An amount with the day it is reached, after a separator (` · ` on the
/// earmarks screen, ` on ` on the liquidity screen), when there is one.
pub open spec fn dated_amount(amount: Seq<char>, day: Option<i32>, sep: Seq<char>) -> Seq<char> {
    match day {
        Some(d) => amount + sep + calendar_text(d, DatePattern::DayMonthYear),
        None => amount,
    }
}

pub fn dated_amount_text(amount: &str, day: Option<i32>, sep: &str) -> (r: String)
    requires
        day matches Some(d) ==> valid_day(d as int),
    ensures
        r@ == dated_amount(amount@, day, sep@),
{
    let mut s = String::new();
    push_str(&mut s, amount);
    if let Some(d) = day {
        push_str(&mut s, sep);
        let t = date_text(d, DatePattern::DayMonthYear);
        push_str(&mut s, t.as_str());
    }
    proof {
        assert(s@ =~= dated_amount(amount@, day, sep@));
    }
    s
}

/// The runway's verdict line: how long and how deep the path stays below the
/// floor.
pub open spec fn days_line(days_below: nat, shortfall: Seq<char>, currency: Seq<char>) -> Seq<char> {
    "Days below the floor "@ + decimal(days_below) + " · shortfall over time "@ + shortfall + " "@ + currency
        + "-days (how long and how deep, not an amount of cash)"@
}

pub fn days_line_text(days_below: u64, shortfall: &str, currency: &str) -> (r: String)
    ensures
        r@ == days_line(days_below as nat, shortfall@, currency@),
{
    let mut s = String::new();
    push_str(&mut s, "Days below the floor ");
    push_decimal(&mut s, days_below);
    push_str(&mut s, " · shortfall over time ");
    push_str(&mut s, shortfall);
    push_str(&mut s, " ");
    push_str(&mut s, currency);
    push_str(&mut s, "-days (how long and how deep, not an amount of cash)");
    proof {
        assert(s@ =~= days_line(days_below as nat, shortfall@, currency@));
    }
    s
}

/// Where a boundary's dated path is when it is not drawn here.
pub open spec fn path_elsewhere(boundary: Seq<char>) -> Seq<char> {
    boundary + "'s dated path lives in the forecast."@
}

pub fn path_elsewhere_text(boundary: &str) -> (r: String)
    ensures
        r@ == path_elsewhere(boundary@),
{
    let mut s = String::new();
    push_str(&mut s, boundary);
    push_str(&mut s, "'s dated path lives in the forecast.");
    proof { assert(s@ =~= path_elsewhere(boundary@)); }
    s
}

/// Beside the boundary choice: the day the balances are read.
pub open spec fn balances_as_of(as_of: i32) -> Seq<char> {
    "Balances as of "@ + calendar_text(as_of, DatePattern::DayMonthYear)
}

pub fn balances_as_of_text(as_of: i32) -> (r: String)
    requires
        valid_day(as_of as int),
    ensures
        r@ == balances_as_of(as_of),
{
    let mut s = String::new();
    push_str(&mut s, "Balances as of ");
    let d = date_text(as_of, DatePattern::DayMonthYear);
    push_str(&mut s, d.as_str());
    proof { assert(s@ =~= balances_as_of(as_of)); }
    s
}

/// The title of a boundary's money today.
pub open spec fn money_today(boundary: Seq<char>) -> Seq<char> {
    boundary + " — money today"@
}

pub fn money_today_text(boundary: &str) -> (r: String)
    ensures
        r@ == money_today(boundary@),
{
    let mut s = String::new();
    push_str(&mut s, boundary);
    push_str(&mut s, " — money today");
    proof { assert(s@ =~= money_today(boundary@)); }
    s
}

} // verus!
