//! Taxes: which tax events the display filters keep, what the register says
//! when it is empty, the reserve's reading, the packs' accordion and texts,
//! and the filter state of the taxes screen.

use vstd::prelude::*;
use crate::text::{
    DatePattern, calendar_text, date_text, decimal, joined, join_texts, push_decimal, push_str, texts,
    valid_day,
};
use crate::timeline::Entity;

verus! {

/// A tax event as the filters read it: who owes it, the rule that raised it,
/// and the day its cash moves.
#[derive(Clone, Copy, Debug)]
pub struct TaxEventRef {
    pub entity: Entity,
    pub rule: u64,
    pub cash_date: i32,
}

/// The rows chosen in the three display filters; row zero is `All` in each.
#[derive(Clone, Copy, PartialEq, Eq, Debug, Structural)]
pub struct TaxFilter {
    pub entity_row: usize,
    pub rule_row: usize,
    /// One keeps events payable within the window, two those payable after.
    pub payable_row: usize,
}

/// The entity the filter keeps: none on row zero or past the last entity.
pub open spec fn entity_filter_of(row: nat, entities: Seq<Entity>) -> Option<Entity> {
    if row == 0 || row - 1 >= entities.len() { None } else { Some(entities[row - 1]) }
}

pub fn entity_filter(row: usize, entities: &Vec<Entity>) -> (r: Option<Entity>)
    ensures
        r == entity_filter_of(row as nat, entities@),
{
    if row == 0 || row - 1 >= entities.len() { None } else { Some(entities[row - 1]) }
}

/// Whether an event passes the filters. A rule row past the last rule keeps
/// nothing; an entity row past the last entity keeps everything.
pub open spec fn tax_event_kept(e: TaxEventRef, f: TaxFilter, entities: Seq<Entity>, rules: Seq<u64>, through: i32) -> bool {
    &&& match entity_filter_of(f.entity_row as nat, entities) {
        None => true,
        Some(x) => e.entity == x,
    }
    &&& (f.rule_row == 0 || (f.rule_row - 1 < rules.len() && e.rule == rules[f.rule_row - 1]))
    &&& if f.payable_row == 1 {
        e.cash_date <= through
    } else if f.payable_row == 2 {
        e.cash_date > through
    } else {
        true
    }
}

/// The positions among `es` of the events the register lists, in order.
pub open spec fn kept_tax_events(
    es: Seq<TaxEventRef>,
    f: TaxFilter,
    entities: Seq<Entity>,
    rules: Seq<u64>,
    through: i32,
) -> Seq<usize>
    decreases es.len(),
{
    if es.len() == 0 {
        Seq::empty()
    } else {
        let prev = kept_tax_events(es.drop_last(), f, entities, rules, through);
        if tax_event_kept(es.last(), f, entities, rules, through) { prev.push((es.len() - 1) as usize) } else { prev }
    }
}

/// The events the register lists, by position.
pub fn listed_tax_events(
    events: &Vec<TaxEventRef>,
    f: TaxFilter,
    entities: &Vec<Entity>,
    rules: &Vec<u64>,
    through: i32,
) -> (r: Vec<usize>)
    ensures
        r@ == kept_tax_events(events@, f, entities@, rules@, through),
{
    let entity = entity_filter(f.entity_row, entities);
    let mut kept: Vec<usize> = Vec::new();
    let n = events.len();
    for i in 0..n
        invariant
            n == events@.len(),
            entity == entity_filter_of(f.entity_row as nat, entities@),
            kept@ == kept_tax_events(events@.take(i as int), f, entities@, rules@, through),
    {
        let e = events[i];
        let entity_ok = match entity {
            None => true,
            Some(x) => e.entity == x,
        };
        let rule_ok = f.rule_row == 0 || (f.rule_row - 1 < rules.len() && e.rule == rules[f.rule_row - 1]);
        let payable_ok = if f.payable_row == 1 {
            e.cash_date <= through
        } else if f.payable_row == 2 {
            e.cash_date > through
        } else {
            true
        };
        if entity_ok && rule_ok && payable_ok {
            kept.push(i);
        }
        proof {
            assert(events@.take(i + 1).drop_last() =~= events@.take(i as int));
        }
    }
    proof {
        assert(events@.take(n as int) =~= events@);
    }
    kept
}

/// Every listed event passes the filters and is one of the assessment's.
pub proof fn listed_tax_events_pass(
    es: Seq<TaxEventRef>,
    f: TaxFilter,
    entities: Seq<Entity>,
    rules: Seq<u64>,
    through: i32,
)
    requires
        es.len() <= usize::MAX,
    ensures
        kept_tax_events(es, f, entities, rules, through).len() <= es.len(),
        forall|i: int| 0 <= i < kept_tax_events(es, f, entities, rules, through).len() ==> {
            let p = #[trigger] kept_tax_events(es, f, entities, rules, through)[i];
            p < es.len() && tax_event_kept(es[p as int], f, entities, rules, through)
        },
    decreases es.len(),
{
    if es.len() > 0 {
        let prev = es.drop_last();
        listed_tax_events_pass(prev, f, entities, rules, through);
        assert forall|i: int| 0 <= i < kept_tax_events(es, f, entities, rules, through).len() implies {
            let p = #[trigger] kept_tax_events(es, f, entities, rules, through)[i];
            p < es.len() && tax_event_kept(es[p as int], f, entities, rules, through)
        } by {
            if i < kept_tax_events(prev, f, entities, rules, through).len() {
                let p = kept_tax_events(prev, f, entities, rules, through)[i];
                assert(prev[p as int] == es[p as int]);
            }
        }
    }
}

/// With every filter on `All` the register lists every event.
pub proof fn unfiltered_lists_all(es: Seq<TaxEventRef>, entities: Seq<Entity>, rules: Seq<u64>, through: i32)
    requires
        es.len() <= usize::MAX,
    ensures
        kept_tax_events(es, TaxFilter { entity_row: 0, rule_row: 0, payable_row: 0 }, entities, rules, through)
            == Seq::new(es.len(), |i: int| i as usize),
    decreases es.len(),
{
    let f = TaxFilter { entity_row: 0, rule_row: 0, payable_row: 0 };
    if es.len() > 0 {
        unfiltered_lists_all(es.drop_last(), entities, rules, through);
        assert(kept_tax_events(es, f, entities, rules, through) =~= Seq::new(es.len(), |i: int| i as usize));
    } else {
        assert(kept_tax_events(es, f, entities, rules, through) =~= Seq::new(es.len(), |i: int| i as usize));
    }
}

/// Whether any display filter narrows the register (`Clear filters` is
/// enabled): an entity that exists, a rule row, or a payable row.
pub open spec fn tax_filtered(f: TaxFilter, entities: Seq<Entity>) -> bool {
    entity_filter_of(f.entity_row as nat, entities) is Some || f.rule_row > 0 || f.payable_row > 0
}

pub fn is_tax_filtered(f: TaxFilter, entities: &Vec<Entity>) -> (r: bool)
    ensures
        r == tax_filtered(f, entities@),
{
    entity_filter(f.entity_row, entities).is_some() || f.rule_row > 0 || f.payable_row > 0
}

/// What the events register shows.
#[derive(Clone, Copy, PartialEq, Eq, Debug, Structural)]
pub enum TaxEventsBody {
    /// No configured rule raised any event.
    Empty,
    /// Events exist but none passes the display filters.
    NoMatch,
    Rows,
}

pub open spec fn tax_events_body_of(total: nat, listed: nat) -> TaxEventsBody {
    if total == 0 {
        TaxEventsBody::Empty
    } else if listed == 0 {
        TaxEventsBody::NoMatch
    } else {
        TaxEventsBody::Rows
    }
}

pub fn tax_events_body(total: usize, listed: usize) -> (r: TaxEventsBody)
    ensures
        r == tax_events_body_of(total as nat, listed as nat),
{
    if total == 0 {
        TaxEventsBody::Empty
    } else if listed == 0 {
        TaxEventsBody::NoMatch
    } else {
        TaxEventsBody::Rows
    }
}

/// When an event's cash moves, and that it falls after the horizon when it
/// does.
pub open spec fn cash_moves(cash_date: i32, through: i32) -> Seq<char> {
    calendar_text(cash_date, DatePattern::DayMonthYear) + if cash_date > through {
        " — after the horizon, so it is a reserve requirement, not a posting in this window"@
    } else {
        Seq::empty()
    }
}

pub fn cash_moves_text(cash_date: i32, through: i32) -> (r: String)
    requires
        valid_day(cash_date as int),
    ensures
        r@ == cash_moves(cash_date, through),
{
    let mut s = date_text(cash_date, DatePattern::DayMonthYear);
    if cash_date > through {
        push_str(&mut s, " — after the horizon, so it is a reserve requirement, not a posting in this window");
    }
    proof {
        assert(s@ =~= cash_moves(cash_date, through));
    }
    s
}

// ----- the reserve -------------------------------------------------------------

/// The reserve card's title and sentence: a refund to come when the reserve
/// is negative, a reserve requirement otherwise.
pub open spec fn reserve_card(reserve: int) -> (Seq<char>, Seq<char>) {
    if reserve < 0 {
        (
            "A refund to come, not spendable cash"@,
            "Negative means a potential refund later. It is not cash you can spend and no earmark exists for it."@,
        )
    } else {
        (
            "A reserve requirement, not an earmark"@,
            "This is a reserve requirement, not an earmark already created. Add one if you want the money held back."@,
        )
    }
}

pub fn reserve_card_text(reserve: i64) -> (r: (String, String))
    ensures
        (r.0@, r.1@) == reserve_card(reserve as int),
{
    if reserve < 0 {
        (
            "A refund to come, not spendable cash".to_string(),
            "Negative means a potential refund later. It is not cash you can spend and no earmark exists for it.".to_string(),
        )
    } else {
        (
            "A reserve requirement, not an earmark".to_string(),
            "This is a reserve requirement, not an earmark already created. Add one if you want the money held back.".to_string(),
        )
    }
}

/// What `Add earmark…` fills in: the reserve as the amount and a name, when
/// the reserve is positive; nothing otherwise.
pub fn open_tax_reserve_earmark(reserve: Option<i64>) -> (r: Option<(i64, String)>)
    ensures
        match reserve {
            Some(amount) if amount > 0 => r matches Some((a, name)) && a == amount
                && name@ == "Tax payable after the horizon"@,
            _ => r is None,
        },
{
    match reserve {
        Some(amount) => {
            if amount > 0 {
                Some((amount, "Tax payable after the horizon".to_string()))
            } else {
                None
            }
        },
        None => None,
    }
}

// ----- the packs ---------------------------------------------------------------

/// Whether a pack's section is open: the first one while the reader has
/// opened none, else the ones they opened.
pub open spec fn pack_open(open: Seq<usize>, i: usize) -> bool {
    if open.len() == 0 { i == 0 } else { open.contains(i) }
}

pub fn pack_is_open(open: &Vec<usize>, i: usize) -> (r: bool)
    ensures
        r == pack_open(open@, i),
{
    if open.len() == 0 {
        return i == 0;
    }
    let n = open.len();
    for k in 0..n
        invariant
            n == open@.len(),
            forall|j: int| 0 <= j < k ==> open@[j] != i,
    {
        if open[k] == i {
            return true;
        }
    }
    false
}

/// The line under a pack's name.
pub open spec fn pack_meta(version: nat, jurisdiction: Seq<char>, rules: nat) -> Seq<char> {
    "Version "@ + decimal(version) + " · "@ + jurisdiction + " · "@ + decimal(rules) + " rule"@ + if rules == 1 {
        Seq::empty()
    } else {
        "s"@
    }
}

pub fn pack_meta_text(version: u64, jurisdiction: &str, rules: u64) -> (r: String)
    ensures
        r@ == pack_meta(version as nat, jurisdiction@, rules as nat),
{
    let mut s = String::new();
    push_str(&mut s, "Version ");
    push_decimal(&mut s, version);
    push_str(&mut s, " · ");
    push_str(&mut s, jurisdiction);
    push_str(&mut s, " · ");
    push_decimal(&mut s, rules);
    push_str(&mut s, " rule");
    if rules != 1 {
        push_str(&mut s, "s");
    }
    proof {
        assert(s@ =~= pack_meta(version as nat, jurisdiction@, rules as nat));
    }
    s
}

/// What a pack's verification means.
pub open spec fn pack_note(verified: bool) -> Seq<char> {
    if verified {
        "A configured pack; its figures are a planning estimate, not a filing."@
    } else {
        "Unverified: nobody has reviewed its source. It applies alongside the configured packs."@
    }
}

pub fn pack_note_text(verified: bool) -> (r: String)
    ensures
        r@ == pack_note(verified),
{
    if verified {
        "A configured pack; its figures are a planning estimate, not a filing.".to_string()
    } else {
        "Unverified: nobody has reviewed its source. It applies alongside the configured packs.".to_string()
    }
}

/// The categories a tax rule covers: all of them when it names none.
pub open spec fn categories_line(categories: Seq<Seq<char>>) -> Seq<char> {
    if categories.len() == 0 { "Every category"@ } else { joined(categories, ", "@) }
}

pub fn categories_line_text(categories: &Vec<String>) -> (r: String)
    ensures
        r@ == categories_line(texts(categories@)),
{
    if categories.len() == 0 {
        "Every category".to_string()
    } else {
        join_texts(categories, ", ")
    }
}

// ----- the screen's state ------------------------------------------------------

/// The display filters and the open event of the taxes screen.
#[derive(Clone, Copy, PartialEq, Eq, Debug, Structural)]
pub struct TaxView {
    pub filter: TaxFilter,
    pub event_expanded: Option<usize>,
}

impl TaxView {
    /// `Clear filters`: every filter back on `All`, no event open.
    pub fn clear_tax_filters(&mut self)
        ensures
            *final(self) == (TaxView {
                filter: TaxFilter { entity_row: 0, rule_row: 0, payable_row: 0 },
                event_expanded: None,
            }),
    {
        self.filter = TaxFilter { entity_row: 0, rule_row: 0, payable_row: 0 };
        self.event_expanded = None;
    }

    /// Sets the entity filter to an entity from another screen: its row is
    /// its position in the entity choice, after `All`; an entity the choice
    /// does not hold leaves the view as it was.
    pub fn apply_tax_entity_filter(&mut self, entity: Entity, entities: &Vec<Entity>)
        requires
            entities@.len() < usize::MAX,
        ensures
            (exists|i: int| 0 <= i < entities@.len() && entities@[i] == entity) ==> {
                &&& final(self).event_expanded == old(self).event_expanded
                &&& final(self).filter.rule_row == old(self).filter.rule_row
                &&& final(self).filter.payable_row == old(self).filter.payable_row
                &&& final(self).filter.entity_row >= 1
                &&& entities@[final(self).filter.entity_row - 1] == entity
                &&& forall|j: int| 0 <= j < final(self).filter.entity_row - 1 ==> entities@[j] != entity
            },
            !(exists|i: int| 0 <= i < entities@.len() && entities@[i] == entity) ==> *final(self) == *old(self),
    {
        let n = entities.len();
        for i in 0..n
            invariant
                n == entities@.len(),
                n < usize::MAX,
                *self == *old(self),
                forall|j: int| 0 <= j < i ==> entities@[j] != entity,
        {
            if entities[i] == entity {
                self.filter.entity_row = i + 1;
                return;
            }
        }
    }

    /// Clicking an event opens its detail, or closes it when it is the one open.
    pub fn toggle_tax_event(&mut self, i: usize)
        ensures
            *final(self) == (TaxView {
                event_expanded: if old(self).event_expanded == Some(i) { None } else { Some(i) },
                ..*old(self)
            }),
    {
        self.event_expanded = if self.event_expanded == Some(i) { None } else { Some(i) };
    }
}

/// Applying an entity filter from another screen makes the register keep
/// exactly that entity's events, as far as the entity filter goes.
pub proof fn applied_entity_filter_keeps_entity(row: usize, entities: Seq<Entity>, entity: Entity)
    requires
        row >= 1,
        row - 1 < entities.len(),
        entities[row - 1] == entity,
    ensures
        entity_filter_of(row as nat, entities) == Some(entity),
{
}

/// The title of the reserve: what is incurred now and payable after the window.
pub open spec fn reserve_title(through: i32) -> Seq<char> {
    "Incurred now, payable after "@ + calendar_text(through, DatePattern::DayMonthYear)
}

pub fn reserve_title_text(through: i32) -> (r: String)
    requires
        valid_day(through as int),
    ensures
        r@ == reserve_title(through),
{
    let mut s = String::new();
    push_str(&mut s, "Incurred now, payable after ");
    let d = date_text(through, DatePattern::DayMonthYear);
    push_str(&mut s, d.as_str());
    proof { assert(s@ =~= reserve_title(through)); }
    s
}

} // verus!
