//! What a viewer may learn of an object: the disclosure levels, the objects
//! a policy covers, and the readings every screen takes of them.

use vstd::prelude::*;

verus! {

/// How much of an object a viewer is shown.
#[derive(Clone, Copy, PartialEq, Eq, Debug, Structural)]
pub enum Disclosure {
    /// Every field.
    Full,
    /// The fields the policy selects, derived figures included.
    SelectedFields,
    /// The balance and nothing derived from it.
    BalanceOnly,
    /// Only as a contribution inside aggregates; its existence is not shown.
    Aggregate,
    /// Not at all.
    Hidden,
}

/// Whether derived figures (reserved, free, earmarks, planned movements)
/// are shown: full or selected-fields disclosure.
pub open spec fn derived_shown(d: Disclosure) -> bool {
    d == Disclosure::Full || d == Disclosure::SelectedFields
}

/// Whether the viewer may learn that the object exists: anything but
/// hidden or aggregate-only.
pub open spec fn existence_shown(d: Disclosure) -> bool {
    d != Disclosure::Hidden && d != Disclosure::Aggregate
}

/// Whether the balance is shown: full, selected-fields or balance-only.
pub open spec fn balance_shown(d: Disclosure) -> bool {
    derived_shown(d) || d == Disclosure::BalanceOnly
}

pub fn shows_derived(d: Disclosure) -> (r: bool)
    ensures
        r == derived_shown(d),
{
    matches!(d, Disclosure::Full | Disclosure::SelectedFields)
}

pub fn shows_existence(d: Disclosure) -> (r: bool)
    ensures
        r == existence_shown(d),
{
    !matches!(d, Disclosure::Hidden | Disclosure::Aggregate)
}

pub fn shows_balance(d: Disclosure) -> (r: bool)
    ensures
        r == balance_shown(d),
{
    matches!(d, Disclosure::Full | Disclosure::SelectedFields | Disclosure::BalanceOnly)
}

/// Showing derived figures implies showing the balance, which implies
/// showing that the object exists.
pub proof fn disclosure_levels_nest(d: Disclosure)
    ensures
        derived_shown(d) ==> balance_shown(d),
        balance_shown(d) ==> existence_shown(d),
{
}

/// The kinds of object a policy, grant or audit event can be about.
#[derive(Clone, Copy, PartialEq, Eq, Debug, Structural)]
pub enum ObjectKind {
    Account,
    Company,
    Scenario,
    Person,
    Goal,
    Reservation,
    Series,
    /// Any other kind the engine names.
    Other,
}

/// An object: its kind and its identifier within that kind.
#[derive(Clone, Copy, PartialEq, Eq, Debug, Structural)]
pub struct ObjectRef {
    pub kind: ObjectKind,
    pub id: u64,
}

/// How an object is named to a viewer who may not know which one it is.
pub open spec fn private_kind(kind: ObjectKind) -> Seq<char> {
    match kind {
        ObjectKind::Account => "a private account"@,
        ObjectKind::Company => "a private company"@,
        ObjectKind::Scenario => "a private scenario"@,
        ObjectKind::Person => "a person"@,
        ObjectKind::Goal => "a private goal"@,
        _ => "a private object"@,
    }
}

pub fn private_kind_text(kind: ObjectKind) -> (r: String)
    ensures
        r@ == private_kind(kind),
{
    match kind {
        ObjectKind::Account => String::from_str("a private account"),
        ObjectKind::Company => String::from_str("a private company"),
        ObjectKind::Scenario => String::from_str("a private scenario"),
        ObjectKind::Person => String::from_str("a person"),
        ObjectKind::Goal => String::from_str("a private goal"),
        _ => String::from_str("a private object"),
    }
}

/// An object as the household names it: its reference, its own name where
/// the household holds one (`None` when the lookup fails), and the engine's
/// text for the bare reference.
#[derive(Clone, Debug)]
pub struct NamedObject {
    pub object: ObjectRef,
    pub name: Option<String>,
    pub display: String,
}

/// The name of an object for a viewer who may know which one it is:
/// `Account: Savings` for the five kinds the household names, the engine's
/// text of the reference for any other kind, nothing when the household no
/// longer holds it.
pub open spec fn name_of(o: NamedObject) -> Option<Seq<char>> {
    let label = match o.object.kind {
        ObjectKind::Account => "Account: "@,
        ObjectKind::Company => "Company: "@,
        ObjectKind::Scenario => "Scenario: "@,
        ObjectKind::Person => "Person: "@,
        _ => "Goal: "@,
    };
    match o.object.kind {
        ObjectKind::Account | ObjectKind::Company | ObjectKind::Scenario | ObjectKind::Person | ObjectKind::Goal => match o.name {
            Some(n) => Some(label + n@),
            None => None,
        },
        _ => Some(o.display@),
    }
}

pub fn name_text(o: &NamedObject) -> (r: Option<String>)
    ensures
        match r {
            Some(t) => name_of(*o) == Some(t@),
            None => name_of(*o) is None,
        },
{
    let label = match o.object.kind {
        ObjectKind::Account => "Account: ",
        ObjectKind::Company => "Company: ",
        ObjectKind::Scenario => "Scenario: ",
        ObjectKind::Person => "Person: ",
        ObjectKind::Goal => "Goal: ",
        _ => {
            return Some(o.display.clone());
        },
    };
    match &o.name {
        Some(n) => {
            let mut t = String::from_str(label);
            t.append(n.as_str());
            Some(t)
        },
        None => None,
    }
}

/// How an object is named where the viewer may or may not know of it:
/// its kind alone when its existence is not shown, otherwise its name, or
/// the engine's text of the reference when the household holds no name.
pub open spec fn shown_name(o: NamedObject, d: Disclosure) -> Seq<char> {
    if !existence_shown(d) {
        private_kind(o.object.kind)
    } else {
        match name_of(o) {
            Some(n) => n,
            None => o.display@,
        }
    }
}

pub fn shown_name_text(o: &NamedObject, d: Disclosure) -> (r: String)
    ensures
        r@ == shown_name(*o, d),
{
    if !shows_existence(d) {
        private_kind_text(o.object.kind)
    } else {
        match name_text(o) {
            Some(n) => n,
            None => o.display.clone(),
        }
    }
}

/// An object whose existence is not disclosed is never named: wherever a
/// screen names it, it says only what kind of object it is.
pub proof fn hidden_objects_stay_unnamed(o: NamedObject, d: Disclosure)
    requires
        !existence_shown(d),
    ensures
        shown_name(o, d) == private_kind(o.object.kind),
{
}

/// Whether an object has a canonical detail screen to open.
pub open spec fn navigable(kind: ObjectKind) -> bool {
    kind == ObjectKind::Account || kind == ObjectKind::Company || kind == ObjectKind::Person
        || kind == ObjectKind::Scenario
}

pub fn object_is_navigable(object: ObjectRef) -> (r: bool)
    ensures
        r == navigable(object.kind),
{
    matches!(object.kind, ObjectKind::Account | ObjectKind::Company | ObjectKind::Person | ObjectKind::Scenario)
}

} // verus!
