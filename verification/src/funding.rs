//! Funding: how each step of the funding order reads, the counts line, the
//! bank-selection rows, and what the screen says when no funding rule is in
//! force.

use vstd::prelude::*;
use crate::assumptions::{TagText, TagTone};
use crate::text::{DatePattern, calendar_text, counted, counted_text, date_text, push_str, valid_day};

verus! {

/// What an account's step in the funding order allows: nothing when it is
/// forbidden, drawing down to a floor when one is preserved, anything
/// otherwise.
pub open spec fn funding_status(forbidden: bool, preserve: Option<Seq<char>>) -> (TagTone, Seq<char>) {
    if forbidden {
        (TagTone::Danger, "Not allowed"@)
    } else {
        match preserve {
            Some(floor) => (TagTone::Secondary, "Keep at least "@ + floor),
            None => (TagTone::Secondary, "Allowed"@),
        }
    }
}

pub fn funding_status_tag(forbidden: bool, preserve: Option<&str>) -> (r: TagText)
    ensures
        (r.tone, r.label@) == funding_status(
            forbidden,
            match preserve {
                Some(f) => Some(f@),
                None => None,
            },
        ),
{
    if forbidden {
        return TagText { tone: TagTone::Danger, label: "Not allowed".to_string() };
    }
    match preserve {
        Some(floor) => {
            let mut s = String::new();
            push_str(&mut s, "Keep at least ");
            push_str(&mut s, floor);
            proof {
                assert(s@ =~= "Keep at least "@ + floor@);
            }
            TagText { tone: TagTone::Secondary, label: s }
        },
        None => TagText { tone: TagTone::Secondary, label: "Allowed".to_string() },
    }
}

/// The counts under the scope: accounts in the funding order, categories with
/// a bank-selection rule.
pub open spec fn funding_counts(steps: nat, categories: nat) -> Seq<char> {
    counted(steps, "account"@, "accounts"@) + " in the funding order · "@ + counted(
        categories,
        "category"@,
        "categories"@,
    ) + " with a bank-selection rule"@
}

pub fn funding_counts_text(steps: u64, categories: u64) -> (r: String)
    ensures
        r@ == funding_counts(steps as nat, categories as nat),
{
    let mut s = counted_text(steps, "account", "accounts");
    push_str(&mut s, " in the funding order · ");
    let c = counted_text(categories, "category", "categories");
    push_str(&mut s, c.as_str());
    push_str(&mut s, " with a bank-selection rule");
    proof {
        assert(s@ =~= funding_counts(steps as nat, categories as nat));
    }
    s
}

/// A bank-selection row's category: `“Groceries” expenses`.
pub open spec fn category_expenses(category: Seq<char>) -> Seq<char> {
    "“"@ + category + "” expenses"@
}

pub fn category_expenses_text(category: &str) -> (r: String)
    ensures
        r@ == category_expenses(category@),
{
    let mut s = String::new();
    push_str(&mut s, "“");
    push_str(&mut s, category);
    push_str(&mut s, "” expenses");
    proof {
        assert(s@ =~= category_expenses(category@));
    }
    s
}

/// What the empty funding order says. When the plan shown is the baseline
/// while a scenario is being looked at, and that scenario holds funding
/// rules of its own, it says so by name.
pub open spec fn empty_funding_note(scenario_on: bool, overlay: Option<Seq<char>>, scenario_funding_rules: bool) -> Seq<char> {
    if !scenario_on && overlay is Some && scenario_funding_rules {
        "No household-wide funding rule is in force today. Rules scoped to scenario “"@ + overlay->0
            + "” apply only under that plan."@
    } else {
        "No funding rule is in force today. A purchase still uses the sources you allow explicitly."@
    }
}

pub fn empty_funding_note_text(scenario_on: bool, overlay: Option<&str>, scenario_funding_rules: bool) -> (r: String)
    ensures
        r@ == empty_funding_note(
            scenario_on,
            match overlay {
                Some(n) => Some(n@),
                None => None,
            },
            scenario_funding_rules,
        ),
{
    match overlay {
        Some(name) => {
            if !scenario_on && scenario_funding_rules {
                let mut s = String::new();
                push_str(&mut s, "No household-wide funding rule is in force today. Rules scoped to scenario “");
                push_str(&mut s, name);
                push_str(&mut s, "” apply only under that plan.");
                proof {
                    assert(s@ =~= "No household-wide funding rule is in force today. Rules scoped to scenario “"@ + name@
                        + "” apply only under that plan."@);
                }
                return s;
            }
        },
        None => {},
    }
    "No funding rule is in force today. A purchase still uses the sources you allow explicitly.".to_string()
}

/// A rule that steers funding, as the empty note reads it: whether it is
/// scoped to a scenario and whether its action prefers or forbids an account.
#[derive(Clone, Copy, Debug)]
pub struct FundingRuleRef {
    pub scenario_scoped: bool,
    pub steers_funding: bool,
}

/// Whether any rule is a scenario-scoped preference or prohibition.
pub open spec fn any_scenario_funding_rule(rules: Seq<FundingRuleRef>) -> bool {
    exists|i: int| 0 <= i < rules.len() && rules[i].scenario_scoped && rules[i].steers_funding
}

pub fn has_scenario_funding_rule(rules: &Vec<FundingRuleRef>) -> (r: bool)
    ensures
        r == any_scenario_funding_rule(rules@),
{
    let n = rules.len();
    for i in 0..n
        invariant
            n == rules@.len(),
            forall|j: int| 0 <= j < i ==> !(rules@[j].scenario_scoped && rules@[j].steers_funding),
    {
        if rules[i].scenario_scoped && rules[i].steers_funding {
            return true;
        }
    }
    false
}

/// Beside the plan choice: the day the funding facts are read.
pub open spec fn funding_as_of(as_of: i32) -> Seq<char> {
    "Funding as of "@ + calendar_text(as_of, DatePattern::DayMonthYear)
}

pub fn funding_as_of_text(as_of: i32) -> (r: String)
    requires
        valid_day(as_of as int),
    ensures
        r@ == funding_as_of(as_of),
{
    let mut s = String::new();
    push_str(&mut s, "Funding as of ");
    let d = date_text(as_of, DatePattern::DayMonthYear);
    push_str(&mut s, d.as_str());
    proof { assert(s@ =~= funding_as_of(as_of)); }
    s
}

} // verus!
