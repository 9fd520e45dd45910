//! The extraction timing illustration: how its steps move, how the bracket
//! schedule and its source read, and how many years the result shows.

use vstd::prelude::*;
use crate::text::{decimal, joined, join_texts, push_decimal, push_str, texts};

verus! {

/// One bracket of an annual schedule: its rate in basis points and its bounds
/// as the money formatter wrote them.
#[derive(Clone, Debug)]
pub struct BracketInput {
    pub rate_basis_points: u32,
    pub lower: String,
    pub upper: Option<String>,
}

/// `10% 0–100,000`, or `30% above 100,000` for the open top bracket: the
/// rate's whole percent and the bounds.
pub open spec fn bracket(b: BracketInput) -> Seq<char> {
    match b.upper {
        Some(u) => decimal((b.rate_basis_points / 100) as nat) + "% "@ + b.lower@ + "–"@ + u@,
        None => decimal((b.rate_basis_points / 100) as nat) + "% above "@ + b.lower@,
    }
}

pub fn bracket_text(b: &BracketInput) -> (r: String)
    ensures
        r@ == bracket(*b),
{
    let mut s = String::new();
    push_decimal(&mut s, (b.rate_basis_points / 100) as u64);
    match &b.upper {
        Some(u) => {
            push_str(&mut s, "% ");
            push_str(&mut s, b.lower.as_str());
            push_str(&mut s, "–");
            push_str(&mut s, u.as_str());
        },
        None => {
            push_str(&mut s, "% above ");
            push_str(&mut s, b.lower.as_str());
        },
    }
    proof {
        assert(s@ =~= bracket(*b));
    }
    s
}

/// The schedule in one line: its brackets, joined by commas.
pub open spec fn bracket_line(bs: Seq<BracketInput>) -> Seq<char> {
    joined(bs.map_values(|b: BracketInput| bracket(b)), ", "@)
}

pub fn bracket_line_text(brackets: &Vec<BracketInput>) -> (r: String)
    ensures
        r@ == bracket_line(brackets@),
{
    let mut items: Vec<String> = Vec::new();
    let n = brackets.len();
    for i in 0..n
        invariant
            n == brackets@.len(),
            items@.len() == i,
            forall|k: int| 0 <= k < i ==> #[trigger] items@[k]@ == bracket(brackets@[k]),
    {
        let t = bracket_text(&brackets[i]);
        items.push(t);
    }
    let s = join_texts(&items, ", ");
    proof {
        assert(texts(items@) =~= brackets@.map_values(|b: BracketInput| bracket(b)));
    }
    s
}

/// Which schedule the comparison uses.
#[derive(Clone, Copy, PartialEq, Eq, Debug, Structural)]
pub enum Schedule {
    /// The fictitious example schedule.
    PlanExample,
    /// The household's own annual brackets.
    HouseholdPack,
}

/// Where the schedule comes from: the example, or the household's packs by
/// name.
pub open spec fn schedule_source(schedule: Schedule, packs: Seq<Seq<char>>) -> Seq<char> {
    match schedule {
        Schedule::PlanExample => "Example schedule, fictitious"@,
        Schedule::HouseholdPack => "This household's packs: "@ + joined(packs, ", "@),
    }
}

pub fn schedule_source_text(schedule: Schedule, packs: &Vec<String>) -> (r: String)
    ensures
        r@ == schedule_source(schedule, texts(packs@)),
{
    match schedule {
        Schedule::PlanExample => "Example schedule, fictitious".to_string(),
        Schedule::HouseholdPack => {
            let mut s = String::new();
            push_str(&mut s, "This household's packs: ");
            let names = join_texts(packs, ", ");
            push_str(&mut s, names.as_str());
            proof {
                assert(s@ =~= schedule_source(schedule, texts(packs@)));
            }
            s
        },
    }
}

/// The schedule chosen on the radio group's row: the household's on the
/// second row, the example otherwise.
pub open spec fn schedule_at_row(row: nat) -> Schedule {
    if row == 1 { Schedule::HouseholdPack } else { Schedule::PlanExample }
}

pub fn schedule_of_row(row: usize) -> (r: Schedule)
    ensures
        r == schedule_at_row(row as nat),
{
    if row == 1 { Schedule::HouseholdPack } else { Schedule::PlanExample }
}

/// The radio group's row of a schedule.
pub fn row_of_schedule(schedule: Schedule) -> (r: usize)
    ensures
        schedule_at_row(r as nat) == schedule,
        r == match schedule {
            Schedule::PlanExample => 0usize,
            Schedule::HouseholdPack => 1usize,
        },
{
    match schedule {
        Schedule::PlanExample => 0,
        Schedule::HouseholdPack => 1,
    }
}

/// The scope line's brackets: the schedule, or that none is effective.
pub open spec fn brackets_scope(line: Seq<char>) -> Seq<char> {
    "Brackets "@ + if line.len() == 0 { "none effective"@ } else { line }
}

pub fn brackets_scope_text(brackets: &Vec<BracketInput>) -> (r: String)
    ensures
        r@ == brackets_scope(bracket_line(brackets@)),
{
    let line = bracket_line_text(brackets);
    let mut s = String::new();
    push_str(&mut s, "Brackets ");
    if line.unicode_len() == 0 {
        push_str(&mut s, "none effective");
    } else {
        push_str(&mut s, line.as_str());
    }
    proof {
        assert(s@ =~= brackets_scope(bracket_line(brackets@)));
    }
    s
}

// ----- the steps ---------------------------------------------------------------

/// The step on show, never past the result.
pub fn extraction_step(step: usize) -> (r: usize)
    ensures
        r == if step <= 3 { step } else { 3 },
{
    if step < 3 { step } else { 3 }
}

/// The forward command of a step and the step it leads to: `Next` on the
/// first two, `Compare taxes` into the result, `Change inputs` from the
/// result back to the first step.
pub open spec fn forward_of(step: nat) -> (Seq<char>, nat) {
    if step < 2 {
        ("Next"@, step + 1)
    } else if step == 2 {
        ("Compare taxes"@, 3)
    } else {
        ("Change inputs"@, 0)
    }
}

pub fn forward(step: usize) -> (r: (String, usize))
    requires
        step <= 3,
    ensures
        (r.0@, r.1 as nat) == forward_of(step as nat),
{
    if step < 2 {
        ("Next".to_string(), step + 1)
    } else if step == 2 {
        ("Compare taxes".to_string(), 3)
    } else {
        ("Change inputs".to_string(), 0)
    }
}

/// How many years the result's table shows: those of the first strategy, two
/// when there is none, and never more than two.
pub open spec fn years_shown(first_strategy_years: Option<nat>) -> nat {
    let years = match first_strategy_years {
        Some(y) => y,
        None => 2,
    };
    if years < 2 { years } else { 2 }
}

pub fn years_shown_of(first_strategy_years: Option<usize>) -> (r: usize)
    ensures
        r as nat == years_shown(
            match first_strategy_years {
                Some(y) => Some(y as nat),
                None => None,
            },
        ),
        r <= 2,
{
    let years = match first_strategy_years {
        Some(y) => y,
        None => 2,
    };
    if years < 2 { years } else { 2 }
}

/// A year's cell: the taxable amount and the tax, either empty when the
/// strategy has no figure for that year.
pub open spec fn year_cell(taxable: Option<Seq<char>>, tax: Option<Seq<char>>) -> Seq<char> {
    (match taxable {
        Some(t) => t,
        None => Seq::empty(),
    }) + " / "@ + match tax {
        Some(t) => t,
        None => Seq::empty(),
    }
}

pub fn year_cell_text(taxable: Option<&str>, tax: Option<&str>) -> (r: String)
    ensures
        r@ == year_cell(
            match taxable {
                Some(t) => Some(t@),
                None => None,
            },
            match tax {
                Some(t) => Some(t@),
                None => None,
            },
        ),
{
    let mut s = String::new();
    if let Some(t) = taxable {
        push_str(&mut s, t);
    }
    push_str(&mut s, " / ");
    if let Some(t) = tax {
        push_str(&mut s, t);
    }
    proof {
        assert(s@ =~= year_cell(
            match taxable {
                Some(t) => Some(t@),
                None => None,
            },
            match tax {
                Some(t) => Some(t@),
                None => None,
            },
        ));
    }
    s
}

} // verus!
