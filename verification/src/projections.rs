//! Projections: the boundaries a forecast may be drawn for, the chart's
//! samples of the path, and the sentences and record lines of the forecast
//! screen.

use vstd::prelude::*;
use crate::assumptions::{TagText, TagTone};
use crate::liquidity::{Boundary, CompanyAccess, boundary_choices, boundary_list, resolve_boundary, resolved_boundary};
use crate::text::{
    DatePattern, calendar_text, date_text, decimal, joined, join_texts, push_char, push_decimal, push_str, texts,
    valid_day,
};

verus! {

/// One point of a forecast path: the day and the boundary's balance after it,
/// in minor units.
#[derive(Clone, Copy, Debug)]
pub struct PathStep {
    pub day: i32,
    pub balance: i64,
}

/// What the engine forecasts for a boundary that the chart reads: the
/// boundary, its path and its hard floor in minor units.
#[derive(Clone, Debug)]
pub struct BoundaryForecast {
    pub boundary: Boundary,
    pub path: Vec<PathStep>,
    pub floor: i64,
}

/// One chart sample: the day's label, the balance and the hard floor, in
/// minor units.
#[derive(Clone, Debug)]
pub struct ChartSample {
    pub label: String,
    pub balance: i64,
    pub floor: i64,
}

/// What the projection screen draws besides the engine's figures.
#[derive(Clone, Debug)]
pub struct ProjectionModel {
    pub boundaries: Vec<Boundary>,
    pub boundary: Boundary,
    pub chart: Vec<ChartSample>,
}

/// Whether every day of a path names a calendar date.
pub open spec fn path_days_valid(path: Seq<PathStep>) -> bool {
    forall|i: int| 0 <= i < path.len() ==> valid_day(#[trigger] path[i].day as int)
}

/// The chart sample of a path point.
pub open spec fn sample_of(p: PathStep, floor: i64, s: ChartSample) -> bool {
    s.label@ == calendar_text(p.day, DatePattern::DayMonth) && s.balance == p.balance && s.floor == floor
}

/// The chart samples of a path against one floor: each point labelled with
/// its day and month. An account's own path is drawn from these too.
pub fn path_samples(path: &Vec<PathStep>, floor: i64) -> (chart: Vec<ChartSample>)
    requires
        path_days_valid(path@),
    ensures
        chart@.len() == path@.len(),
        forall|i: int| 0 <= i < path@.len() ==> sample_of(path@[i], floor, #[trigger] chart@[i]),
{
    let mut chart: Vec<ChartSample> = Vec::new();
    let n = path.len();
    for i in 0..n
        invariant
            n == path@.len(),
            path_days_valid(path@),
            chart@.len() == i,
            forall|k: int| 0 <= k < i ==> sample_of(path@[k], floor, #[trigger] chart@[k]),
    {
        let p = path[i];
        assert(valid_day(path@[i as int].day as int));
        let label = date_text(p.day, DatePattern::DayMonth);
        chart.push(ChartSample { label, balance: p.balance, floor });
    }
    chart
}

impl ProjectionModel {
    /// The boundaries and the boundary the forecast is drawn for.
    pub fn scope(people: &Vec<u64>, companies: &Vec<CompanyAccess>, requested: Boundary) -> (r: (Vec<Boundary>, Boundary))
        ensures
            r.0@ == boundary_list(people@, companies@),
            r.1 == resolved_boundary(r.0@, requested),
    {
        let boundaries = boundary_choices(people, companies);
        let boundary = resolve_boundary(&boundaries, requested);
        (boundaries, boundary)
    }

    /// The model from the boundary request and the engine's forecast of the
    /// boundary shown: one chart sample per point of its path, against its
    /// floor.
    pub fn compute(
        people: &Vec<u64>,
        companies: &Vec<CompanyAccess>,
        requested: Boundary,
        forecast: &BoundaryForecast,
    ) -> (m: ProjectionModel)
        requires
            forecast.boundary == resolved_boundary(boundary_list(people@, companies@), requested),
            path_days_valid(forecast.path@),
        ensures
            m.boundaries@ == boundary_list(people@, companies@),
            m.boundary == resolved_boundary(m.boundaries@, requested),
            m.boundary == forecast.boundary,
            m.chart@.len() == forecast.path@.len(),
            forall|i: int| 0 <= i < forecast.path@.len() ==> sample_of(forecast.path@[i], forecast.floor, #[trigger] m.chart@[i]),
    {
        let (boundaries, boundary) = Self::scope(people, companies, requested);
        let chart = path_samples(&forecast.path, forecast.floor);
        ProjectionModel { boundaries, boundary, chart }
    }
}

// ----- the figures and the path ------------------------------------------------

/// The figures' title: the boundary and the case, with the scenario when one
/// is applied, else the case's description.
pub open spec fn figures_title(boundary: Seq<char>, case: Seq<char>, description: Seq<char>, scenario: Option<Seq<char>>) -> Seq<char> {
    match scenario {
        Some(name) => boundary + " — "@ + case + " case, with scenario “"@ + name + "”"@,
        None => boundary + " — "@ + case + " case ("@ + description + ")"@,
    }
}

pub fn figures_title_text(boundary: &str, case: &str, description: &str, scenario: Option<&str>) -> (r: String)
    ensures
        r@ == figures_title(
            boundary@,
            case@,
            description@,
            match scenario {
                Some(n) => Some(n@),
                None => None,
            },
        ),
{
    let mut s = String::new();
    push_str(&mut s, boundary);
    push_str(&mut s, " — ");
    push_str(&mut s, case);
    match scenario {
        Some(name) => {
            push_str(&mut s, " case, with scenario “");
            push_str(&mut s, name);
            push_str(&mut s, "”");
        },
        None => {
            push_str(&mut s, " case (");
            push_str(&mut s, description);
            push_str(&mut s, ")");
        },
    }
    proof {
        assert(s@ =~= figures_title(
            boundary@,
            case@,
            description@,
            match scenario {
                Some(n) => Some(n@),
                None => None,
            },
        ));
    }
    s
}

/// The line under the lowest cash: when it is reached, or that the path never
/// falls below its start.
pub open spec fn lowest_when(day: Option<i32>) -> Seq<char> {
    match day {
        Some(d) => "on "@ + calendar_text(d, DatePattern::DayMonthYear),
        None => "never below the start"@,
    }
}

pub fn lowest_when_text(day: Option<i32>) -> (r: String)
    requires
        day matches Some(d) ==> valid_day(d as int),
    ensures
        r@ == lowest_when(day),
{
    match day {
        Some(d) => {
            let mut s = String::new();
            push_str(&mut s, "on ");
            let t = date_text(d, DatePattern::DayMonthYear);
            push_str(&mut s, t.as_str());
            proof {
                assert(s@ =~= lowest_when(day));
            }
            s
        },
        None => "never below the start".to_string(),
    }
}

/// An account's lowest balance, with the day and month it is reached.
pub open spec fn account_lowest(amount: Seq<char>, day: Option<i32>) -> Seq<char> {
    match day {
        Some(d) => amount + " ("@ + calendar_text(d, DatePattern::DayMonth) + ")"@,
        None => amount,
    }
}

pub fn account_lowest_text(amount: &str, day: Option<i32>) -> (r: String)
    requires
        day matches Some(d) ==> valid_day(d as int),
    ensures
        r@ == account_lowest(amount@, day),
{
    let mut s = String::new();
    push_str(&mut s, amount);
    if let Some(d) = day {
        push_str(&mut s, " (");
        let t = date_text(d, DatePattern::DayMonth);
        push_str(&mut s, t.as_str());
        push_str(&mut s, ")");
    }
    proof {
        assert(s@ =~= account_lowest(amount@, day));
    }
    s
}

/// A required transfer point: when, which account, how much it needs, and
/// whether the boundary's other accounts can cover it.
pub open spec fn transfer_point(day: i32, account: Seq<char>, shortfall: Seq<char>, coverable: bool) -> Seq<char> {
    calendar_text(day, DatePattern::DayMonthYear) + ": "@ + account + " needs "@ + shortfall + " to stay at its floor"@
        + if coverable {
        " — other accounts of the boundary have the headroom"@
    } else {
        " — not coverable from the boundary's other accounts"@
    }
}

pub fn transfer_point_text(day: i32, account: &str, shortfall: &str, coverable: bool) -> (r: String)
    requires
        valid_day(day as int),
    ensures
        r@ == transfer_point(day, account@, shortfall@, coverable),
{
    let mut s = date_text(day, DatePattern::DayMonthYear);
    push_str(&mut s, ": ");
    push_str(&mut s, account);
    push_str(&mut s, " needs ");
    push_str(&mut s, shortfall);
    push_str(&mut s, " to stay at its floor");
    if coverable {
        push_str(&mut s, " — other accounts of the boundary have the headroom");
    } else {
        push_str(&mut s, " — not coverable from the boundary's other accounts");
    }
    proof {
        assert(s@ =~= transfer_point(day, account@, shortfall@, coverable));
    }
    s
}

/// An item of a numbered list: its position from one, a full stop, the text.
pub open spec fn numbered(index: nat, text: Seq<char>) -> Seq<char> {
    decimal(index + 1) + ". "@ + text
}

pub fn numbered_text(index: u64, text: &str) -> (r: String)
    requires
        index < u64::MAX,
    ensures
        r@ == numbered(index as nat, text@),
{
    let mut s = String::new();
    push_decimal(&mut s, index + 1);
    push_str(&mut s, ". ");
    push_str(&mut s, text);
    proof {
        assert(s@ =~= numbered(index as nat, text@));
    }
    s
}

// ----- the forecast record -----------------------------------------------------

/// A record entry that may be empty: `none`, or its items joined by ` · `.
pub open spec fn or_none(items: Seq<Seq<char>>) -> Seq<char> {
    if items.len() == 0 { "none"@ } else { joined(items, " · "@) }
}

pub fn or_none_text(items: &Vec<String>) -> (r: String)
    ensures
        r@ == or_none(texts(items@)),
{
    if items.len() == 0 {
        "none".to_string()
    } else {
        join_texts(items, " · ")
    }
}

/// `v3`: a version.
pub open spec fn version_tag(v: nat) -> Seq<char> {
    "v"@ + decimal(v)
}

/// The policy versions a run was authorized under.
pub open spec fn policy_versions(versions: Seq<u64>) -> Seq<char> {
    decimal(versions.len()) + " policies at versions "@ + joined(
        versions.map_values(|v: u64| version_tag(v as nat)),
        ", "@,
    )
}

pub fn policy_versions_text(versions: &Vec<u64>) -> (r: String)
    ensures
        r@ == policy_versions(versions@),
{
    let mut tags: Vec<String> = Vec::new();
    let n = versions.len();
    for i in 0..n
        invariant
            n == versions@.len(),
            tags@.len() == i,
            forall|k: int| 0 <= k < i ==> #[trigger] tags@[k]@ == version_tag(versions@[k] as nat),
    {
        let mut t = String::new();
        push_str(&mut t, "v");
        push_decimal(&mut t, versions[i]);
        proof {
            assert(t@ =~= version_tag(versions@[i as int] as nat));
        }
        tags.push(t);
    }
    let mut s = String::new();
    push_decimal(&mut s, n as u64);
    push_str(&mut s, " policies at versions ");
    let joined_tags = join_texts(&tags, ", ");
    push_str(&mut s, joined_tags.as_str());
    proof {
        assert(texts(tags@) =~= versions@.map_values(|v: u64| version_tag(v as nat)));
        assert(s@ =~= policy_versions(versions@));
    }
    s
}

/// The record's scenario overrides: the scenario's name, or the baseline.
pub open spec fn scenario_overrides(scenario: Option<Seq<char>>) -> Seq<char> {
    match scenario {
        Some(name) => name,
        None => "none (baseline)"@,
    }
}

pub fn scenario_overrides_text(scenario: Option<&str>) -> (r: String)
    ensures
        r@ == scenario_overrides(
            match scenario {
                Some(n) => Some(n@),
                None => None,
            },
        ),
{
    match scenario {
        Some(name) => {
            let mut s = String::new();
            push_str(&mut s, name);
            proof {
                assert(s@ =~= name@);
            }
            s
        },
        None => "none (baseline)".to_string(),
    }
}

/// The character of one hexadecimal digit, lower case.
pub open spec fn hex_char(d: nat) -> char {
    if d < 10 {
        crate::text::digit_char(d as int)
    } else if d == 10 {
        'a'
    } else if d == 11 {
        'b'
    } else if d == 12 {
        'c'
    } else if d == 13 {
        'd'
    } else if d == 14 {
        'e'
    } else {
        'f'
    }
}

/// The last `k` hexadecimal digits of `n`, most significant first, zeros
/// leading (`{:016x}` for `k` sixteen).
pub open spec fn hex_digits(n: nat, k: nat) -> Seq<char>
    decreases k,
{
    if k == 0 {
        Seq::empty()
    } else {
        hex_digits(n / 16, (k - 1) as nat).push(hex_char(n % 16))
    }
}

fn hex_digit(d: u64) -> (c: char)
    requires
        d < 16,
    ensures
        c == hex_char(d as nat),
{
    if d == 0 { '0' }
    else if d == 1 { '1' }
    else if d == 2 { '2' }
    else if d == 3 { '3' }
    else if d == 4 { '4' }
    else if d == 5 { '5' }
    else if d == 6 { '6' }
    else if d == 7 { '7' }
    else if d == 8 { '8' }
    else if d == 9 { '9' }
    else if d == 10 { 'a' }
    else if d == 11 { 'b' }
    else if d == 12 { 'c' }
    else if d == 13 { 'd' }
    else if d == 14 { 'e' }
    else { 'f' }
}

fn push_hex(s: &mut String, n: u64, k: u64)
    ensures
        final(s)@ == old(s)@ + hex_digits(n as nat, k as nat),
    decreases k,
{
    if k == 0 {
        proof {
            assert(old(s)@ + hex_digits(n as nat, 0) =~= old(s)@);
        }
        return;
    }
    push_hex(s, n / 16, k - 1);
    push_char(s, hex_digit(n % 16));
    proof {
        assert(old(s)@ + hex_digits((n / 16) as nat, (k - 1) as nat) + seq![hex_char((n % 16) as nat)]
            =~= old(s)@ + hex_digits(n as nat, k as nat));
    }
}

/// The run's input hash as sixteen lower-case hexadecimal digits.
pub fn input_hash_text(hash: u64) -> (r: String)
    ensures
        r@ == hex_digits(hash as nat, 16),
{
    let mut s = String::new();
    push_hex(&mut s, hash, 16);
    proof {
        assert(Seq::<char>::empty() + hex_digits(hash as nat, 16) =~= hex_digits(hash as nat, 16));
    }
    s
}

/// The assumptions entry of the record.
pub open spec fn assumptions_listed(count: nat) -> Seq<char> {
    decimal(count) + " listed above"@
}

pub fn assumptions_listed_text(count: u64) -> (r: String)
    ensures
        r@ == assumptions_listed(count as nat),
{
    let mut s = String::new();
    push_decimal(&mut s, count);
    push_str(&mut s, " listed above");
    proof {
        assert(s@ =~= assumptions_listed(count as nat));
    }
    s
}

/// The projections header: the window and how the forecast is built.
pub open spec fn projections_header(from: i32, through: i32) -> Seq<char> {
    "Chronological forecast from "@ + calendar_text(from, DatePattern::DayMonthYear) + " through "@
        + calendar_text(through, DatePattern::DayMonthYear)
        + ": reconciled cash plus every signed posting in date and intraday order. Future money is conditional, never available."@
}

pub fn projections_header_text(from: i32, through: i32) -> (r: String)
    requires
        valid_day(from as int),
        valid_day(through as int),
    ensures
        r@ == projections_header(from, through),
{
    let mut s = String::new();
    push_str(&mut s, "Chronological forecast from ");
    let a = date_text(from, DatePattern::DayMonthYear);
    push_str(&mut s, a.as_str());
    push_str(&mut s, " through ");
    let b = date_text(through, DatePattern::DayMonthYear);
    push_str(&mut s, b.as_str());
    push_str(&mut s, ": reconciled cash plus every signed posting in date and intraday order. Future money is conditional, never available.");
    proof { assert(s@ =~= projections_header(from, through)); }
    s
}

/// The runway's title, with the floor written.
pub open spec fn runway_title(floor: Seq<char>) -> Seq<char> {
    "Runway against the "@ + floor + " hard floor"@
}

pub fn runway_title_text(floor: &str) -> (r: String)
    ensures
        r@ == runway_title(floor@),
{
    let mut s = String::new();
    push_str(&mut s, "Runway against the ");
    push_str(&mut s, floor);
    push_str(&mut s, " hard floor");
    proof { assert(s@ =~= runway_title(floor@)); }
    s
}

/// Under the runway's summary: how long and how deep the path stays below the floor.
pub open spec fn severity_line(days_below: nat, currency_days: nat) -> Seq<char> {
    "Days below the floor "@ + decimal(days_below) + " · integrated shortfall "@ + decimal(currency_days)
        + " currency-days (severity over time, not cash)."@
}

pub fn severity_line_text(days_below: u64, currency_days: u64) -> (r: String)
    ensures
        r@ == severity_line(days_below as nat, currency_days as nat),
{
    let mut s = String::new();
    push_str(&mut s, "Days below the floor ");
    push_decimal(&mut s, days_below);
    push_str(&mut s, " · integrated shortfall ");
    push_decimal(&mut s, currency_days);
    push_str(&mut s, " currency-days (severity over time, not cash).");
    proof { assert(s@ =~= severity_line(days_below as nat, currency_days as nat)); }
    s
}

/// An account's standing on its own path: negative first, then below its
/// floor, else the floor held.
pub open spec fn account_standing(negative_from: Option<i32>, first_breach: Option<i32>) -> (TagTone, Seq<char>) {
    match negative_from {
        Some(d) => (TagTone::Danger, "negative from "@ + calendar_text(d, DatePattern::DayMonthYear)),
        None => match first_breach {
            Some(d) => (TagTone::Warning, "below floor from "@ + calendar_text(d, DatePattern::DayMonthYear)),
            None => (TagTone::Secondary, "floor held"@),
        },
    }
}

pub fn account_standing_tag(negative_from: Option<i32>, first_breach: Option<i32>) -> (r: TagText)
    requires
        negative_from matches Some(d) ==> valid_day(d as int),
        first_breach matches Some(d) ==> valid_day(d as int),
    ensures
        r.tone == account_standing(negative_from, first_breach).0,
        r.label@ == account_standing(negative_from, first_breach).1,
{
    match negative_from {
        Some(d) => {
            let mut s = String::new();
            push_str(&mut s, "negative from ");
            let t = date_text(d, DatePattern::DayMonthYear);
            push_str(&mut s, t.as_str());
            proof { assert(s@ =~= account_standing(negative_from, first_breach).1); }
            TagText { tone: TagTone::Danger, label: s }
        },
        None => match first_breach {
            Some(d) => {
                let mut s = String::new();
                push_str(&mut s, "below floor from ");
                let t = date_text(d, DatePattern::DayMonthYear);
                push_str(&mut s, t.as_str());
                proof { assert(s@ =~= account_standing(negative_from, first_breach).1); }
                TagText { tone: TagTone::Warning, label: s }
            },
            None => TagText { tone: TagTone::Secondary, label: String::from_str("floor held") },
        },
    }
}

} // verus!
