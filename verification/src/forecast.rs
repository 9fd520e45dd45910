//! The forecast path: where its lowest point and its first breach are, how a
//! selected point reads against the floor, the status of each account's
//! path, and the text of the forecast record.

use vstd::prelude::*;
use crate::assumptions::{TagText, TagTone};
use crate::text::{DatePattern, calendar_text, date_text, decimal, joined, push_decimal, push_str, texts, valid_day};

verus! {

/// The first position holding the smallest value (`min_by_key` keeps the
/// first of equal minima).
pub open spec fn is_first_minimum(values: Seq<i64>, i: int) -> bool {
    0 <= i < values.len() && (forall|j: int| 0 <= j < values.len() ==> values[i] <= values[j])
        && (forall|j: int| 0 <= j < i ==> values[j] > values[i])
}

/// The lowest point of a path: its first position of least balance.
pub fn lowest_point(values: &Vec<i64>) -> (r: Option<usize>)
    ensures
        values@.len() == 0 ==> r is None,
        r matches Some(i) ==> is_first_minimum(values@, i as int),
        values@.len() > 0 ==> r is Some,
{
    let n = values.len();
    if n == 0 {
        return None;
    }
    let mut best: usize = 0;
    for i in 1..n
        invariant
            n == values@.len(),
            best < i,
            forall|j: int| 0 <= j < i ==> values@[best as int] <= values@[j],
            forall|j: int| 0 <= j < best ==> values@[j] > values@[best as int],
    {
        if values[i] < values[best] {
            best = i;
        }
    }
    Some(best)
}

/// One posting of a path: its day and the balance after it, in minor units.
#[derive(Clone, Copy, Debug)]
pub struct PathPoint {
    pub date: i32,
    pub balance: i64,
}

/// Whether a point is at or after the first breach and below the floor.
pub open spec fn breaching_point(p: PathPoint, breach: i32, floor: i64) -> bool {
    p.date >= breach && p.balance < floor
}

/// The position of the first breach on the path: the first point on or
/// after the breach date that is below the floor.
pub fn first_breach_point(points: &Vec<PathPoint>, breach: Option<i32>, floor: i64) -> (r: Option<usize>)
    ensures
        breach is None ==> r is None,
        r matches Some(i) ==> i < points@.len() && breaching_point(points@[i as int], breach.unwrap(), floor)
            && forall|j: int| 0 <= j < i ==> !breaching_point(points@[j], breach.unwrap(), floor),
        breach is Some && r is None ==> forall|j: int| 0 <= j < points@.len() ==> !breaching_point(points@[j], breach.unwrap(), floor),
{
    let b = match breach {
        Some(b) => b,
        None => return None,
    };
    let n = points.len();
    for i in 0..n
        invariant
            n == points@.len(),
            breach == Some(b),
            forall|j: int| 0 <= j < i ==> !breaching_point(points@[j], b, floor),
    {
        let p = points[i];
        if p.date >= b && p.balance < floor {
            return Some(i);
        }
    }
    None
}

/// A selected point read against the floor: how far above (or at) it, or
/// how far below it, in minor units.
#[derive(Clone, Copy, PartialEq, Eq, Debug, Structural)]
pub enum FloorReading {
    Above(u64),
    Below(u64),
}

pub open spec fn floor_reading_of(balance: int, floor: int) -> FloorReading {
    if balance - floor >= 0 { FloorReading::Above((balance - floor) as u64) } else { FloorReading::Below((floor - balance) as u64) }
}

pub fn floor_reading(balance: i64, floor: i64) -> (r: FloorReading)
    ensures
        r == floor_reading_of(balance as int, floor as int),
{
    let h: i128 = balance as i128 - floor as i128;
    if h >= 0 { FloorReading::Above(h as u64) } else { FloorReading::Below((-h) as u64) }
}

/// The status tag of an account's path: negative from a day, else below its
/// floor from a day, else the floor held.
pub open spec fn account_status_of(negative_from: Option<i32>, first_breach: Option<i32>) -> (TagTone, Seq<char>) {
    match negative_from {
        Some(d) => (TagTone::Danger, "Negative "@ + calendar_text(d, DatePattern::DayMonth)),
        None => match first_breach {
            Some(d) => (TagTone::Warning, "Below floor "@ + calendar_text(d, DatePattern::DayMonth)),
            None => (TagTone::Secondary, "Floor held"@),
        },
    }
}

pub fn account_status(negative_from: Option<i32>, first_breach: Option<i32>) -> (r: TagText)
    requires
        negative_from matches Some(d) ==> valid_day(d as int),
        first_breach matches Some(d) ==> valid_day(d as int),
    ensures
        r.tone == account_status_of(negative_from, first_breach).0,
        r.label@ == account_status_of(negative_from, first_breach).1,
{
    if let Some(d) = negative_from {
        let mut s = String::from_str("Negative ");
        let t = date_text(d, DatePattern::DayMonth);
        push_str(&mut s, t.as_str());
        TagText { tone: TagTone::Danger, label: s }
    } else if let Some(d) = first_breach {
        let mut s = String::from_str("Below floor ");
        let t = date_text(d, DatePattern::DayMonth);
        push_str(&mut s, t.as_str());
        TagText { tone: TagTone::Warning, label: s }
    } else {
        TagText { tone: TagTone::Secondary, label: String::from_str("Floor held") }
    }
}

/// The share an account contributes to a path, said only when it is not
/// the whole account: ` · 50% share`.
pub open spec fn share_suffix(basis_points: nat) -> Seq<char> {
    if basis_points < 10000 { " · "@ + decimal(basis_points / 100) + "% share"@ } else { Seq::empty() }
}

pub fn share_suffix_text(basis_points: u32) -> (r: String)
    ensures
        r@ == share_suffix(basis_points as nat),
{
    let mut s = String::new();
    if basis_points < 10000 {
        push_str(&mut s, " · ");
        push_decimal(&mut s, (basis_points / 100) as u64);
        push_str(&mut s, "% share");
        proof { assert(s@ =~= share_suffix(basis_points as nat)); }
    } else {
        proof { assert(s@ =~= share_suffix(basis_points as nat)); }
    }
    s
}

/// Whether a breach recovers within the window, as the line under the path says it.
pub open spec fn recovery_suffix(first_breach: Option<i32>, recovery: Option<i32>) -> Seq<char> {
    match (first_breach, recovery) {
        (Some(_), Some(r)) => " · recovers "@ + calendar_text(r, DatePattern::DayMonthYear),
        (Some(_), None) => " · not recovered within this window"@,
        _ => Seq::empty(),
    }
}

pub fn recovery_suffix_text(first_breach: Option<i32>, recovery: Option<i32>) -> (r: String)
    requires
        recovery matches Some(d) ==> valid_day(d as int),
    ensures
        r@ == recovery_suffix(first_breach, recovery),
{
    match (first_breach, recovery) {
        (Some(_), Some(r)) => {
            let mut s = String::from_str(" · recovers ");
            let t = date_text(r, DatePattern::DayMonthYear);
            push_str(&mut s, t.as_str());
            s
        },
        (Some(_), None) => String::from_str(" · not recovered within this window"),
        _ => String::new(),
    }
}

/// The label of the lowest point: with its date, or bare when the path
/// never falls below its start.
pub open spec fn lowest_label(lowest_date: Option<i32>) -> Seq<char> {
    match lowest_date {
        Some(d) => "Lowest · "@ + calendar_text(d, DatePattern::DayMonthYear),
        None => "Lowest"@,
    }
}

pub fn lowest_label_text(lowest_date: Option<i32>) -> (r: String)
    requires
        lowest_date matches Some(d) ==> valid_day(d as int),
    ensures
        r@ == lowest_label(lowest_date),
{
    match lowest_date {
        Some(d) => {
            let mut s = String::from_str("Lowest · ");
            let t = date_text(d, DatePattern::DayMonthYear);
            push_str(&mut s, t.as_str());
            s
        },
        None => String::from_str("Lowest"),
    }
}

/// The spacing of a chart's axis labels: one in eight points, at least one.
pub fn tick_margin(points: usize) -> (r: usize)
    ensures
        r == (if points / 8 > 1 { points / 8 } else { 1 }),
{
    let m = points / 8;
    if m > 1 { m } else { 1 }
}

/// One identity fact of the forecast record.
#[derive(Clone, Debug)]
pub struct RecordFact {
    pub label: String,
    pub value: String,
}

/// One collection of the forecast record.
#[derive(Clone, Debug)]
pub struct RecordCollection {
    pub title: String,
    pub items: Vec<String>,
}

pub open spec fn fact_lines(facts: Seq<RecordFact>) -> Seq<char>
    decreases facts.len(),
{
    if facts.len() == 0 {
        Seq::empty()
    } else {
        fact_lines(facts.drop_last()) + facts.last().label@ + ": "@ + facts.last().value@ + "\n"@
    }
}

/// A collection's line: its items joined by `; `, or `none`.
pub open spec fn collection_line(c: RecordCollection) -> Seq<char> {
    c.title@ + ": "@ + (if c.items@.len() == 0 { "none"@ } else { joined(texts(c.items@), "; "@) }) + "\n"@
}

pub open spec fn collection_lines(cs: Seq<RecordCollection>) -> Seq<char>
    decreases cs.len(),
{
    if cs.len() == 0 { Seq::empty() } else { collection_lines(cs.drop_last()) + collection_line(cs.last()) }
}

/// The forecast record as copied text: a heading line, one line per
/// identity fact, one line per collection.
pub open spec fn record_text_of(facts: Seq<RecordFact>, collections: Seq<RecordCollection>) -> Seq<char> {
    "Forecast record\n"@ + fact_lines(facts) + collection_lines(collections)
}

pub fn record_text(facts: &Vec<RecordFact>, collections: &Vec<RecordCollection>) -> (r: String)
    ensures
        r@ == record_text_of(facts@, collections@),
{
    let mut s = String::from_str("Forecast record\n");
    let n = facts.len();
    for i in 0..n
        invariant
            n == facts@.len(),
            s@ == "Forecast record\n"@ + fact_lines(facts@.take(i as int)),
    {
        push_str(&mut s, facts[i].label.as_str());
        push_str(&mut s, ": ");
        push_str(&mut s, facts[i].value.as_str());
        push_str(&mut s, "\n");
        proof {
            assert(facts@.take(i + 1).drop_last() =~= facts@.take(i as int));
            assert(s@ =~= "Forecast record\n"@ + fact_lines(facts@.take(i + 1)));
        }
    }
    proof { assert(facts@.take(n as int) =~= facts@); }
    let ghost head = s@;
    let m = collections.len();
    for i in 0..m
        invariant
            m == collections@.len(),
            s@ == head + collection_lines(collections@.take(i as int)),
    {
        let c = &collections[i];
        push_str(&mut s, c.title.as_str());
        push_str(&mut s, ": ");
        if c.items.len() == 0 {
            push_str(&mut s, "none");
        } else {
            let j = crate::text::join_texts(&c.items, "; ");
            push_str(&mut s, j.as_str());
        }
        push_str(&mut s, "\n");
        proof {
            assert(collections@.take(i + 1).drop_last() =~= collections@.take(i as int));
            assert(collections@.take(i + 1).last() == collections@[i as int]);
            assert(s@ =~= head + collection_lines(collections@.take(i + 1)));
        }
    }
    proof { assert(collections@.take(m as int) =~= collections@); }
    s
}

/// The record's plan fact: the scenario by name, or the baseline.
pub open spec fn plan_fact(scenario: Option<Seq<char>>) -> Seq<char> {
    match scenario {
        Some(name) => "with scenario “"@ + name + "”"@,
        None => "baseline"@,
    }
}

pub fn plan_fact_text(scenario: Option<&str>) -> (r: String)
    ensures
        r@ == plan_fact(
            match scenario {
                Some(n) => Some(n@),
                None => None,
            },
        ),
{
    match scenario {
        Some(name) => {
            let mut s = String::new();
            push_str(&mut s, "with scenario “");
            push_str(&mut s, name);
            push_str(&mut s, "”");
            proof {
                assert(s@ =~= "with scenario “"@ + name@ + "”"@);
            }
            s
        },
        None => "baseline".to_string(),
    }
}

/// The record's assumptions fact: how many the run used and how many of
/// those the viewer is not shown.
pub open spec fn assumptions_used(used: nat, hidden: nat) -> Seq<char> {
    decimal(used) + " used ("@ + decimal(hidden) + " not disclosed to this viewer)"@
}

pub fn assumptions_used_text(used: u64, hidden: u64) -> (r: String)
    ensures
        r@ == assumptions_used(used as nat, hidden as nat),
{
    let mut s = String::new();
    push_decimal(&mut s, used);
    push_str(&mut s, " used (");
    push_decimal(&mut s, hidden);
    push_str(&mut s, " not disclosed to this viewer)");
    proof {
        assert(s@ =~= assumptions_used(used as nat, hidden as nat));
    }
    s
}

/// A collection's heading in the record sheet: its title and its size.
pub open spec fn collection_heading(title: Seq<char>, count: nat) -> Seq<char> {
    title + " ("@ + decimal(count) + ")"@
}

pub fn collection_heading_text(title: &str, count: u64) -> (r: String)
    ensures
        r@ == collection_heading(title@, count as nat),
{
    let mut s = String::new();
    push_str(&mut s, title);
    push_str(&mut s, " (");
    push_decimal(&mut s, count);
    push_str(&mut s, ")");
    proof {
        assert(s@ =~= collection_heading(title@, count as nat));
    }
    s
}

/// A planned transfer into an account, as the movement form is filled in for
/// it: its name, the transfer direction's row, the amount and the day; the
/// source account stays for the person to choose and it happens once.
#[derive(Clone, Debug)]
pub struct TransferPrefill {
    pub name: String,
    pub direction_row: u8,
    pub amount: i64,
    pub on: i32,
    pub recurrence: String,
}

/// The form filled in for a required transfer point: `Transfer to` the
/// account (by name, empty when it is gone), the transfer row, one time.
pub fn open_transfer_plan(to_name: Option<&str>, on: i32, amount: i64) -> (r: TransferPrefill)
    ensures
        r.name@ == "Transfer to "@ + match to_name {
            Some(n) => n@,
            None => Seq::empty(),
        },
        r.direction_row == 2,
        r.amount == amount,
        r.on == on,
        r.recurrence@ == "One time"@,
{
    let mut name = String::new();
    push_str(&mut name, "Transfer to ");
    if let Some(n) = to_name {
        push_str(&mut name, n);
    }
    proof {
        assert(name@ =~= "Transfer to "@ + match to_name {
            Some(n) => n@,
            None => Seq::empty(),
        });
    }
    TransferPrefill { name, direction_row: 2, amount, on, recurrence: "One time".to_string() }
}

// ----- the path's readout ------------------------------------------------------

/// A selected point against the floor, the distance as the money type writes
/// it.
pub open spec fn against_floor(r: FloorReading, distance: Seq<char>) -> Seq<char> {
    match r {
        FloorReading::Above(_) => distance + " above the floor"@,
        FloorReading::Below(_) => distance + " below the floor"@,
    }
}

pub fn against_floor_text(r: FloorReading, distance: &str) -> (t: String)
    ensures
        t@ == against_floor(r, distance@),
{
    let mut s = String::new();
    push_str(&mut s, distance);
    match r {
        FloorReading::Above(_) => push_str(&mut s, " above the floor"),
        FloorReading::Below(_) => push_str(&mut s, " below the floor"),
    }
    proof {
        assert(s@ =~= against_floor(r, distance@));
    }
    s
}

/// The readout's title: the selected posting's day and its place on the path.
pub open spec fn posting_title(day: i32, index: nat, total: nat) -> Seq<char> {
    "Selected: "@ + calendar_text(day, DatePattern::DayMonthYear) + " · posting "@ + decimal(index + 1) + " of "@
        + decimal(total)
}

pub fn posting_title_text(day: i32, index: u64, total: u64) -> (r: String)
    requires
        valid_day(day as int),
        index < u64::MAX,
    ensures
        r@ == posting_title(day, index as nat, total as nat),
{
    let mut s = String::new();
    push_str(&mut s, "Selected: ");
    let d = date_text(day, DatePattern::DayMonthYear);
    push_str(&mut s, d.as_str());
    push_str(&mut s, " · posting ");
    push_decimal(&mut s, index + 1);
    push_str(&mut s, " of ");
    push_decimal(&mut s, total);
    proof {
        assert(s@ =~= posting_title(day, index as nat, total as nat));
    }
    s
}

/// How many postings an account's values table lists.
pub open spec fn values_shown() -> nat { 40 }

/// The line under an account's values table when it lists only the first ones.
pub open spec fn more_postings(count: nat) -> Option<Seq<char>> {
    if count > values_shown() { Some(decimal((count - values_shown()) as nat) + " more postings after these."@) } else { None }
}

pub fn more_postings_text(count: u64) -> (r: Option<String>)
    ensures
        r is Some <==> more_postings(count as nat) is Some,
        r matches Some(t) ==> more_postings(count as nat) == Some(t@),
{
    if count > 40 {
        let mut s = String::new();
        push_decimal(&mut s, count - 40);
        push_str(&mut s, " more postings after these.");
        proof {
            assert(s@ =~= decimal((count - 40) as nat) + " more postings after these."@);
        }
        Some(s)
    } else {
        None
    }
}

/// An account path's heading.
pub open spec fn exact_path_title(name: Seq<char>) -> Seq<char> {
    name + " — exact path in this run"@
}

pub fn exact_path_title_text(name: &str) -> (r: String)
    ensures
        r@ == exact_path_title(name@),
{
    let mut s = String::new();
    push_str(&mut s, name);
    push_str(&mut s, " — exact path in this run");
    proof {
        assert(s@ =~= exact_path_title(name@));
    }
    s
}

/// A path's caption: what the breach analysis says, and the floor.
pub open spec fn path_caption(summary: Seq<char>, floor: Seq<char>) -> Seq<char> {
    summary + " · floor "@ + floor
}

pub fn path_caption_text(summary: &str, floor: &str) -> (r: String)
    ensures
        r@ == path_caption(summary@, floor@),
{
    let mut s = String::new();
    push_str(&mut s, summary);
    push_str(&mut s, " · floor ");
    push_str(&mut s, floor);
    proof {
        assert(s@ =~= path_caption(summary@, floor@));
    }
    s
}

/// A policy version in the record: the policy and its version.
pub open spec fn policy_at_version(policy: nat, version: nat) -> Seq<char> {
    decimal(policy) + " at version "@ + decimal(version)
}

pub fn policy_at_version_text(policy: u64, version: u64) -> (r: String)
    ensures
        r@ == policy_at_version(policy as nat, version as nat),
{
    let mut s = String::new();
    push_decimal(&mut s, policy);
    push_str(&mut s, " at version ");
    push_decimal(&mut s, version);
    proof {
        assert(s@ =~= policy_at_version(policy as nat, version as nat));
    }
    s
}

// ----- the whole forecast record ---------------------------------------------------

/// What a run records, as plain values: names and amounts come written.
#[derive(Clone, Debug)]
pub struct ForecastRecordInput {
    pub algorithm: String,
    pub boundary: String,
    pub case_label: String,
    pub case_description: String,
    /// The scenario laid over the plan, by name.
    pub scenario: Option<String>,
    pub as_of: i32,
    pub through: i32,
    pub assumptions_used: u64,
    pub assumptions_hidden: u64,
    pub input_hash: u64,
    /// Each starting account, by name, with its balance.
    pub starting: Vec<(String, String)>,
    /// The included series, by name.
    pub series: Vec<String>,
    /// Each excluded account, by name, with the reason.
    pub excluded: Vec<(String, String)>,
    pub rules: Vec<String>,
    pub packs: Vec<String>,
    /// Each policy in force, with its version.
    pub policies: Vec<(u64, u64)>,
}

/// The record as the sheet shows it and the copy button copies it.
#[derive(Clone, Debug)]
pub struct ForecastRecord {
    pub facts: Vec<RecordFact>,
    pub collections: Vec<RecordCollection>,
    pub text: String,
}

/// Pairs written as one line each, their two parts joined by a separator.
pub open spec fn pair_lines(pairs: Seq<(String, String)>, sep: Seq<char>) -> Seq<Seq<char>> {
    pairs.map_values(|p: (String, String)| p.0@ + sep + p.1@)
}

/// Policies written as `7 at version 3`.
pub open spec fn policy_lines(policies: Seq<(u64, u64)>) -> Seq<Seq<char>> {
    policies.map_values(|p: (u64, u64)| policy_at_version(p.0 as nat, p.1 as nat))
}

/// The record's identity facts, label and value.
pub open spec fn record_facts(r: ForecastRecordInput) -> Seq<(Seq<char>, Seq<char>)> {
    seq![
        ("Algorithm"@, r.algorithm@),
        ("Boundary"@, r.boundary@),
        ("Case"@, r.case_label@ + " — "@ + r.case_description@),
        ("Plan"@, plan_fact(match r.scenario { Some(n) => Some(n@), None => None })),
        ("Balances as of"@, calendar_text(r.as_of, DatePattern::DayMonthYear)),
        ("Through"@, calendar_text(r.through, DatePattern::DayMonthYear)),
        ("Assumptions"@, assumptions_used(r.assumptions_used as nat, r.assumptions_hidden as nat)),
        ("Input hash"@, crate::projections::hex_digits(r.input_hash as nat, 16)),
    ]
}

/// The record's collections, title and items.
pub open spec fn record_collections(r: ForecastRecordInput) -> Seq<(Seq<char>, Seq<Seq<char>>)> {
    seq![
        ("Starting balances"@, pair_lines(r.starting@, " "@)),
        ("Included series"@, texts(r.series@)),
        ("Excluded accounts"@, pair_lines(r.excluded@, " — "@)),
        ("Rules applied"@, texts(r.rules@)),
        ("Tax rule packs"@, texts(r.packs@)),
        ("Policy versions"@, policy_lines(r.policies@)),
    ]
}

pub open spec fn fact_views(facts: Seq<RecordFact>) -> Seq<(Seq<char>, Seq<char>)> {
    facts.map_values(|f: RecordFact| (f.label@, f.value@))
}

pub open spec fn collection_views(cs: Seq<RecordCollection>) -> Seq<(Seq<char>, Seq<Seq<char>>)> {
    cs.map_values(|c: RecordCollection| (c.title@, texts(c.items@)))
}

fn write_pairs(pairs: &Vec<(String, String)>, sep: &str) -> (r: Vec<String>)
    ensures
        texts(r@) == pair_lines(pairs@, sep@),
{
    let mut out: Vec<String> = Vec::new();
    let n = pairs.len();
    for i in 0..n
        invariant
            n == pairs@.len(),
            texts(out@) == pair_lines(pairs@.take(i as int), sep@),
    {
        let ghost before = out@;
        let mut s = String::new();
        push_str(&mut s, pairs[i].0.as_str());
        push_str(&mut s, sep);
        push_str(&mut s, pairs[i].1.as_str());
        out.push(s);
        proof {
            assert(pairs@.take(i + 1) =~= pairs@.take(i as int).push(pairs@[i as int]));
            assert(pair_lines(pairs@.take(i + 1), sep@) =~= pair_lines(pairs@.take(i as int), sep@).push(
                pairs@[i as int].0@ + sep@ + pairs@[i as int].1@,
            ));
            assert(out@ == before.push(s));
            assert(texts(out@) =~= texts(before).push(s@));
        }
    }
    proof { assert(pairs@.take(n as int) =~= pairs@); }
    out
}

fn write_policies(policies: &Vec<(u64, u64)>) -> (r: Vec<String>)
    ensures
        texts(r@) == policy_lines(policies@),
{
    let mut out: Vec<String> = Vec::new();
    let n = policies.len();
    for i in 0..n
        invariant
            n == policies@.len(),
            texts(out@) == policy_lines(policies@.take(i as int)),
    {
        let ghost before = out@;
        let (id, version) = policies[i];
        let line = policy_at_version_text(id, version);
        out.push(line);
        proof {
            assert(policies@.take(i + 1) =~= policies@.take(i as int).push(policies@[i as int]));
            assert(policy_lines(policies@.take(i + 1)) =~= policy_lines(policies@.take(i as int)).push(
                policy_at_version(id as nat, version as nat),
            ));
            assert(out@ == before.push(line));
            assert(texts(out@) =~= texts(before).push(line@));
        }
    }
    proof { assert(policies@.take(n as int) =~= policies@); }
    out
}

fn fact(label: &str, value: String) -> (r: RecordFact)
    ensures
        r.label@ == label@,
        r.value@ == value@,
{
    RecordFact { label: label.to_string(), value }
}

fn collection(title: &str, items: Vec<String>) -> (r: RecordCollection)
    ensures
        r.title@ == title@,
        r.items@ == items@,
{
    RecordCollection { title: title.to_string(), items }
}

/// The forecast record of a run: its identity facts, its collections, and the
/// text the copy button copies.
pub fn open_forecast_record(r: &ForecastRecordInput) -> (out: ForecastRecord)
    requires
        valid_day(r.as_of as int),
        valid_day(r.through as int),
    ensures
        fact_views(out.facts@) == record_facts(*r),
        collection_views(out.collections@) == record_collections(*r),
        out.text@ == record_text_of(out.facts@, out.collections@),
{
    let mut case = String::new();
    push_str(&mut case, r.case_label.as_str());
    push_str(&mut case, " — ");
    push_str(&mut case, r.case_description.as_str());
    let plan = match &r.scenario {
        Some(n) => plan_fact_text(Some(n.as_str())),
        None => plan_fact_text(None),
    };
    let mut facts: Vec<RecordFact> = Vec::new();
    facts.push(fact("Algorithm", r.algorithm.clone()));
    facts.push(fact("Boundary", r.boundary.clone()));
    facts.push(fact("Case", case));
    facts.push(fact("Plan", plan));
    facts.push(fact("Balances as of", date_text(r.as_of, DatePattern::DayMonthYear)));
    facts.push(fact("Through", date_text(r.through, DatePattern::DayMonthYear)));
    facts.push(fact("Assumptions", assumptions_used_text(r.assumptions_used, r.assumptions_hidden)));
    facts.push(fact("Input hash", crate::projections::input_hash_text(r.input_hash)));
    let mut collections: Vec<RecordCollection> = Vec::new();
    collections.push(collection("Starting balances", write_pairs(&r.starting, " ")));
    collections.push(collection("Included series", r.series.clone()));
    collections.push(collection("Excluded accounts", write_pairs(&r.excluded, " — ")));
    collections.push(collection("Rules applied", r.rules.clone()));
    collections.push(collection("Tax rule packs", r.packs.clone()));
    collections.push(collection("Policy versions", write_policies(&r.policies)));
    proof {
        assert(fact_views(facts@) =~= record_facts(*r));
        assert(collection_views(collections@) =~= record_collections(*r));
    }
    let text = record_text(&facts, &collections);
    ForecastRecord { facts, collections, text }
}

/// Whether a required transfer can come from the boundary's other accounts.
pub open spec fn coverable_note(coverable: bool) -> Seq<char> {
    if coverable {
        "Other accounts in this boundary have the headroom at that point"@
    } else {
        "Not coverable from this boundary's other accounts"@
    }
}

pub fn coverable_note_text(coverable: bool) -> (r: String)
    ensures
        r@ == coverable_note(coverable),
{
    if coverable {
        String::from_str("Other accounts in this boundary have the headroom at that point")
    } else {
        String::from_str("Not coverable from this boundary's other accounts")
    }
}

} // verus!
