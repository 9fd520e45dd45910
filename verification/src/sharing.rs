//! Sharing: what preset a policy amounts to, the status of a grant, the
//! tone of an audit event, where a policy's object opens, how a policy aspect
//! splits into its label and its audience, what a policy's detail shows the
//! viewer, where a selected grant or audit event may lead, and the lines of
//! the policies, grants and audit screens.

use vstd::prelude::*;
use crate::access::{ObjectKind, ObjectRef};
use crate::privacy::{GrantRow, PolicyInput};
use crate::assumptions::{TagText, TagTone};
use crate::order::{positions, sort_by_key, sorted_by_key, stable_by_key};
use crate::access::{Disclosure, existence_shown, navigable, shows_existence};
use crate::text::{
    DatePattern, calendar_text, chars_of, date_text, decimal, find_seq, join_texts, joined, occurs_at, push_decimal,
    push_str, push_two_digits, texts, two_digits, valid_day,
};

verus! {

/// Who an aspect of a policy is shown to.
#[derive(Clone, Copy, PartialEq, Eq, Debug, Structural)]
pub enum Audience {
    /// The whole household.
    Household,
    /// The object's owners only.
    OwnersOnly,
    /// Named persons.
    Persons,
    /// Any other audience the engine names.
    Other,
}

/// What a policy amounts to, read from who sees the object's existence, its
/// balance and its transactions.
#[derive(Clone, Copy, PartialEq, Eq, Debug, Structural)]
pub enum Preset {
    FullyShared,
    Private,
    SharedBalance,
    SharedSummary,
    Custom,
}

pub open spec fn preset_of(existence: Audience, balance: Audience, transactions: Audience) -> Preset {
    if existence == Audience::Household && balance == Audience::Household && transactions == Audience::Household {
        Preset::FullyShared
    } else if existence == Audience::OwnersOnly {
        Preset::Private
    } else if balance == Audience::Household || balance == Audience::Persons {
        Preset::SharedBalance
    } else if existence == Audience::Household || existence == Audience::Persons {
        Preset::SharedSummary
    } else {
        Preset::Custom
    }
}

pub fn preset(existence: Audience, balance: Audience, transactions: Audience) -> (r: Preset)
    ensures
        r == preset_of(existence, balance, transactions),
{
    let all_household = existence == Audience::Household && balance == Audience::Household && transactions == Audience::Household;
    if all_household {
        Preset::FullyShared
    } else if existence == Audience::OwnersOnly {
        Preset::Private
    } else if matches!(balance, Audience::Household | Audience::Persons) {
        Preset::SharedBalance
    } else if matches!(existence, Audience::Household | Audience::Persons) {
        Preset::SharedSummary
    } else {
        Preset::Custom
    }
}

pub open spec fn preset_name(p: Preset) -> Seq<char> {
    match p {
        Preset::FullyShared => "Fully shared"@,
        Preset::Private => "Private"@,
        Preset::SharedBalance => "Shared balance"@,
        Preset::SharedSummary => "Shared summary"@,
        Preset::Custom => "Custom"@,
    }
}

/// A policy label for other screens.
pub fn policy_preset_label(existence: Audience, balance: Audience, transactions: Audience) -> (r: String)
    ensures
        r@ == preset_name(preset_of(existence, balance, transactions)),
{
    match preset(existence, balance, transactions) {
        Preset::FullyShared => String::from_str("Fully shared"),
        Preset::Private => String::from_str("Private"),
        Preset::SharedBalance => String::from_str("Shared balance"),
        Preset::SharedSummary => String::from_str("Shared summary"),
        Preset::Custom => String::from_str("Custom"),
    }
}

/// A grant's standing on the reconciliation date.
#[derive(Clone, Copy, PartialEq, Eq, Debug, Structural)]
pub enum GrantStatus {
    /// Revoked from the given day.
    Revoked(i32),
    InEffect,
    /// Not yet effective.
    Future,
    Expired,
}

pub open spec fn grant_status_of(revoked_on: Option<i32>, in_effect: bool, effective_from: int, as_of: int) -> GrantStatus {
    match revoked_on {
        Some(d) => GrantStatus::Revoked(d),
        None => if in_effect {
            GrantStatus::InEffect
        } else if effective_from > as_of {
            GrantStatus::Future
        } else {
            GrantStatus::Expired
        },
    }
}

pub fn grant_status(revoked_on: Option<i32>, in_effect: bool, effective_from: i32, as_of: i32) -> (r: GrantStatus)
    ensures
        r == grant_status_of(revoked_on, in_effect, effective_from as int, as_of as int),
{
    if let Some(d) = revoked_on {
        GrantStatus::Revoked(d)
    } else if in_effect {
        GrantStatus::InEffect
    } else if effective_from > as_of {
        GrantStatus::Future
    } else {
        GrantStatus::Expired
    }
}

/// The tag of a grant's status.
pub open spec fn grant_status_tag(s: GrantStatus) -> (TagTone, Seq<char>) {
    match s {
        GrantStatus::Revoked(d) => (TagTone::Danger, "Revoked from "@ + calendar_text(d, DatePattern::DayMonthYear)),
        GrantStatus::InEffect => (TagTone::Secondary, "In effect"@),
        GrantStatus::Future => (TagTone::Info, "Future"@),
        GrantStatus::Expired => (TagTone::Warning, "Expired"@),
    }
}

pub fn status_tag(s: GrantStatus) -> (r: TagText)
    requires
        s matches GrantStatus::Revoked(d) ==> valid_day(d as int),
    ensures
        r.tone == grant_status_tag(s).0,
        r.label@ == grant_status_tag(s).1,
{
    match s {
        GrantStatus::Revoked(d) => {
            let mut label = String::from_str("Revoked from ");
            let t = date_text(d, DatePattern::DayMonthYear);
            push_str(&mut label, t.as_str());
            TagText { tone: TagTone::Danger, label }
        },
        GrantStatus::InEffect => TagText { tone: TagTone::Secondary, label: String::from_str("In effect") },
        GrantStatus::Future => TagText { tone: TagTone::Info, label: String::from_str("Future") },
        GrantStatus::Expired => TagText { tone: TagTone::Warning, label: String::from_str("Expired") },
    }
}

/// The kinds of audit event the screen tells apart.
#[derive(Clone, Copy, PartialEq, Eq, Debug, Structural)]
pub enum AuditKind {
    AccessDenied,
    GrantRevoked,
    SuppressionApplied,
    /// Any other kind of event.
    Other,
}

/// A denial is danger, a revocation or a suppression a warning, anything
/// else plain.
pub open spec fn audit_tone_of(k: AuditKind) -> TagTone {
    match k {
        AuditKind::AccessDenied => TagTone::Danger,
        AuditKind::GrantRevoked | AuditKind::SuppressionApplied => TagTone::Warning,
        AuditKind::Other => TagTone::Secondary,
    }
}

pub fn audit_tone(k: AuditKind) -> (r: TagTone)
    ensures
        r == audit_tone_of(k),
{
    match k {
        AuditKind::AccessDenied => TagTone::Danger,
        AuditKind::GrantRevoked | AuditKind::SuppressionApplied => TagTone::Warning,
        AuditKind::Other => TagTone::Secondary,
    }
}

/// Where following a policy's object leads.
#[derive(Clone, Copy, PartialEq, Eq, Debug, Structural)]
pub enum PolicyTarget {
    Account(u64),
    Company(u64),
    Person(u64),
    /// The scenarios screen with this scenario's detail open.
    Scenario(u64),
}

pub open spec fn policy_target_of(o: ObjectRef) -> Option<PolicyTarget> {
    match o.kind {
        ObjectKind::Account => Some(PolicyTarget::Account(o.id)),
        ObjectKind::Company => Some(PolicyTarget::Company(o.id)),
        ObjectKind::Person => Some(PolicyTarget::Person(o.id)),
        ObjectKind::Scenario => Some(PolicyTarget::Scenario(o.id)),
        _ => None,
    }
}

/// Follows a policy's object to its canonical detail; other kinds go nowhere.
pub fn open_policy_object(o: ObjectRef) -> (r: Option<PolicyTarget>)
    ensures
        r == policy_target_of(o),
        r is Some == crate::access::navigable(o.kind),
{
    match o.kind {
        ObjectKind::Account => Some(PolicyTarget::Account(o.id)),
        ObjectKind::Company => Some(PolicyTarget::Company(o.id)),
        ObjectKind::Person => Some(PolicyTarget::Person(o.id)),
        ObjectKind::Scenario => Some(PolicyTarget::Scenario(o.id)),
        _ => None,
    }
}

/// The sharing screens' selection.
#[derive(Clone, Copy, PartialEq, Eq, Debug, Structural)]
pub struct SharingView {
    pub selected_policy: Option<ObjectRef>,
    pub selected_grant: Option<usize>,
}

impl SharingView {
    /// Selects a policy's row (the policies screen then shows it).
    pub fn select_policy_row(&mut self, object: ObjectRef)
        ensures
            *final(self) == (SharingView { selected_policy: Some(object), ..*old(self) }),
    {
        self.selected_policy = Some(object);
    }

    /// Selects a grant, by its position among the household's grants.
    pub fn select_grant(&mut self, grant: usize)
        ensures
            *final(self) == (SharingView { selected_grant: Some(grant), ..*old(self) }),
    {
        self.selected_grant = Some(grant);
    }
}

/// The lines of the confirmation before a grant is revoked: what it shares
/// and why, with whom, from when, and what is kept.
pub open spec fn revoke_lines(row: GrantRow, as_of: i32) -> Seq<Seq<char>> {
    seq![
        row.object_name@ + " — "@ + row.purpose@,
        "Grantee: "@ + row.grantee@,
        "Revoked from the reconciliation date, "@ + calendar_text(as_of, DatePattern::DayMonthYear) + "."@,
        "The grant is kept with its revocation date; calculations made while it applied keep their context."@,
    ]
}

/// The first row among `rows` for the grant at position `grant`.
pub open spec fn grant_row_of(rows: Seq<GrantRow>, grant: usize) -> Option<GrantRow> {
    if exists|i: int| 0 <= i < rows.len() && rows[i].grant == grant {
        Some(rows[choose|i: int| 0 <= i < rows.len() && rows[i].grant == grant && forall|j: int| 0 <= j < i ==> rows[j].grant != grant])
    } else {
        None
    }
}

/// The confirmation's lines for revoking a grant the viewer is shown; none
/// when no shown row is that grant's.
pub fn confirm_revoke_grant(rows: &Vec<GrantRow>, grant: usize, as_of: i32) -> (r: Option<Vec<String>>)
    requires
        valid_day(as_of as int),
    ensures
        match grant_row_of(rows@, grant) {
            Some(row) => r matches Some(lines) && lines@.map_values(|t: String| t@) == revoke_lines(row, as_of),
            None => r is None,
        },
{
    let n = rows.len();
    for i in 0..n
        invariant
            n == rows@.len(),
            valid_day(as_of as int),
            forall|j: int| 0 <= j < i ==> rows@[j].grant != grant,
    {
        if rows[i].grant == grant {
            let row = &rows[i];
            let mut lines: Vec<String> = Vec::new();
            let mut first = String::new();
            push_str(&mut first, row.object_name.as_str());
            push_str(&mut first, " — ");
            push_str(&mut first, row.purpose.as_str());
            lines.push(first);
            let mut second = String::new();
            push_str(&mut second, "Grantee: ");
            push_str(&mut second, row.grantee.as_str());
            lines.push(second);
            let mut third = String::new();
            push_str(&mut third, "Revoked from the reconciliation date, ");
            let d = date_text(as_of, DatePattern::DayMonthYear);
            push_str(&mut third, d.as_str());
            push_str(&mut third, ".");
            lines.push(third);
            lines.push("The grant is kept with its revocation date; calculations made while it applied keep their context.".to_string());
            proof {
                let c = choose|c: int| 0 <= c < rows@.len() && rows@[c].grant == grant && forall|j: int| 0 <= j < c ==> rows@[j].grant != grant;
                assert(0 <= i < rows@.len() && rows@[i as int].grant == grant);
                if c < i {
                    assert(rows@[c].grant != grant);
                } else if c > i {
                    assert(rows@[i as int].grant != grant);
                }
                assert(grant_row_of(rows@, grant) == Some(rows@[i as int]));
                assert(lines@.map_values(|t: String| t@) =~= revoke_lines(rows@[i as int], as_of));
            }
            return Some(lines);
        }
    }
    None
}

// ----- a policy's version history ---------------------------------------------

/// One version of an access policy.
#[derive(Clone, Debug)]
pub struct PolicyVersion {
    pub version: u64,
    /// Its preset, as the preset label reads.
    pub preset: String,
    pub effective_from: i32,
    /// Who changed it, by name.
    pub changed_by: String,
    /// When: the day, and the minute of that day.
    pub changed_day: i32,
    pub changed_minute: u32,
}

/// A row of the history table.
#[derive(Clone, Debug)]
pub struct VersionRow {
    pub version: String,
    pub preset: String,
    pub effective: String,
    pub changed: String,
}

/// Whether a version's days name calendar dates and its minute a time of day.
pub open spec fn version_valid(v: PolicyVersion) -> bool {
    valid_day(v.effective_from as int) && valid_day(v.changed_day as int) && v.changed_minute < 1440
}

/// `v3`, or `v3 · current` for the version in force.
pub open spec fn version_label(version: nat, current: nat) -> Seq<char> {
    "v"@ + decimal(version) + if version == current { " · current"@ } else { Seq::empty() }
}

/// A moment as the history writes it: `05 Mar 2024 14:07`.
pub open spec fn stamp(day: i32, minute: nat) -> Seq<char> {
    calendar_text(day, DatePattern::DayMonthYear) + " "@ + two_digits(minute / 60) + ":"@ + two_digits(minute % 60)
}

/// The row a version reads as.
pub open spec fn version_row_of(v: PolicyVersion, current: nat, r: VersionRow) -> bool {
    &&& r.version@ == version_label(v.version as nat, current)
    &&& r.preset@ == v.preset@
    &&& r.effective@ == calendar_text(v.effective_from, DatePattern::DayMonthYear)
    &&& r.changed@ == v.changed_by@ + " · "@ + stamp(v.changed_day, v.changed_minute as nat)
}

fn version_row(v: &PolicyVersion, current: u64) -> (r: VersionRow)
    requires
        version_valid(*v),
    ensures
        version_row_of(*v, current as nat, r),
{
    let mut version = String::new();
    push_str(&mut version, "v");
    push_decimal(&mut version, v.version);
    if v.version == current {
        push_str(&mut version, " · current");
    }
    let mut preset = String::new();
    push_str(&mut preset, v.preset.as_str());
    let effective = date_text(v.effective_from, DatePattern::DayMonthYear);
    let mut changed = String::new();
    push_str(&mut changed, v.changed_by.as_str());
    push_str(&mut changed, " · ");
    let day = date_text(v.changed_day, DatePattern::DayMonthYear);
    push_str(&mut changed, day.as_str());
    push_str(&mut changed, " ");
    push_two_digits(&mut changed, (v.changed_minute / 60) as u64);
    push_str(&mut changed, ":");
    push_two_digits(&mut changed, (v.changed_minute % 60) as u64);
    proof {
        assert(version@ =~= version_label(v.version as nat, current as nat));
        assert(preset@ =~= v.preset@);
        assert(changed@ =~= v.changed_by@ + " · "@ + stamp(v.changed_day, v.changed_minute as nat));
    }
    VersionRow { version, preset, effective, changed }
}

/// Every version of a policy, oldest to current: the earlier versions and the
/// current one ordered by version number, equal numbers keeping their order.
/// The order is returned as positions into the earlier versions followed by
/// the current one, with the row each position reads as.
pub fn version_history(previous: &Vec<PolicyVersion>, current: &PolicyVersion) -> (r: (Vec<usize>, Vec<VersionRow>))
    requires
        forall|i: int| 0 <= i < previous@.len() ==> version_valid(#[trigger] previous@[i]),
        version_valid(*current),
        previous@.len() < usize::MAX,
    ensures
        ({
            let all = previous@.push(*current);
            let keys = all.map_values(|v: PolicyVersion| v.version);
            &&& r.0@.to_multiset() == positions(all.len()).to_multiset()
            &&& r.0@.len() == all.len()
            &&& sorted_by_key(keys, r.0@)
            &&& stable_by_key(keys, r.0@)
            &&& r.1@.len() == all.len()
            &&& forall|i: int| 0 <= i < r.1@.len() ==> r.0@[i] < all.len() && version_row_of(
                all[r.0@[i] as int],
                current.version as nat,
                #[trigger] r.1@[i],
            )
        }),
{
    let ghost all = previous@.push(*current);
    let mut keys: Vec<u64> = Vec::new();
    let n = previous.len();
    for i in 0..n
        invariant
            n == previous@.len(),
            keys@.len() == i,
            forall|k: int| 0 <= k < i ==> #[trigger] keys@[k] == previous@[k].version,
    {
        keys.push(previous[i].version);
    }
    keys.push(current.version);
    proof {
        assert(keys@ =~= all.map_values(|v: PolicyVersion| v.version));
    }
    let order = sort_by_key(&keys);
    let mut rows: Vec<VersionRow> = Vec::new();
    let m = order.len();
    for i in 0..m
        invariant
            m == order@.len(),
            m == n + 1,
            n == previous@.len(),
            all == previous@.push(*current),
            forall|k: int| 0 <= k < order@.len() ==> order@[k] < n + 1,
            forall|k: int| 0 <= k < previous@.len() ==> version_valid(#[trigger] previous@[k]),
            version_valid(*current),
            rows@.len() == i,
            forall|k: int| 0 <= k < i ==> version_row_of(all[order@[k] as int], current.version as nat, #[trigger] rows@[k]),
    {
        let p = order[i];
        if p < n {
            let row = version_row(&previous[p], current.version);
            proof {
                assert(all[p as int] == previous@[p as int]);
            }
            rows.push(row);
        } else {
            let row = version_row(current, current.version);
            proof {
                assert(all[p as int] == *current);
            }
            rows.push(row);
        }
    }
    (order, rows)
}

/// An aspect line split at its first `: `, the way `splitn(2, ": ")` splits
/// it: the label before, the audience after; the whole line and nothing
/// when there is no `: `.
pub open spec fn aspect_parts(line: Seq<char>) -> (Seq<char>, Seq<char>) {
    let sep = ": "@;
    if exists|i: int| occurs_at(line, sep, i) {
        let i = choose|i: int| occurs_at(line, sep, i) && forall|k: int| 0 <= k < i ==> !occurs_at(line, sep, k);
        (line.subrange(0, i), line.subrange(i + 2, line.len() as int))
    } else {
        (line, Seq::empty())
    }
}

pub fn aspect_label_value(line: &str) -> (r: (String, String))
    ensures
        r.0@ == aspect_parts(line@).0,
        r.1@ == aspect_parts(line@).1,
{
    let chars = chars_of(line);
    let sep = chars_of(": ");
    proof { reveal_strlit(": "); }
    match find_seq(&chars, &sep) {
        Some(i) => {
            let n = line.unicode_len();
            let label = String::from_str(line.substring_char(0, i));
            let value = String::from_str(line.substring_char(i + 2, n));
            proof {
                let c = choose|c: int| occurs_at(line@, ": "@, c) && forall|k: int| 0 <= k < c ==> !occurs_at(line@, ": "@, k);
                if c < i {
                    assert(!occurs_at(line@, ": "@, c));
                } else if c > i {
                    assert(occurs_at(line@, ": "@, i as int));
                }
            }
            (label, value)
        },
        None => (String::from_str(line), String::new()),
    }
}

// ----- the policy list and a policy's detail ----------------------------------

/// A policy list item's second line: its preset, then whether the viewer owns
/// the object or what is disclosed of it to them.
pub open spec fn policy_item_meta(preset: Seq<char>, owned: bool, disclosure: Seq<char>) -> Seq<char> {
    preset + " · "@ + if owned { "You own this"@ } else { "Disclosure: "@ + disclosure }
}

pub fn policy_item_meta_text(preset: &str, owned: bool, disclosure: &str) -> (r: String)
    ensures
        r@ == policy_item_meta(preset@, owned, disclosure@),
{
    let mut s = String::new();
    push_str(&mut s, preset);
    push_str(&mut s, " · ");
    if owned {
        push_str(&mut s, "You own this");
    } else {
        push_str(&mut s, "Disclosure: ");
        push_str(&mut s, disclosure);
    }
    proof {
        if owned {
            assert(s@ =~= policy_item_meta(preset@, owned, disclosure@));
        } else {
            assert(s@ =~= policy_item_meta(preset@, owned, disclosure@));
        }
    }
    s
}

/// The alert over the policy list when objects lack an effective policy.
pub open spec fn problems_alert(n: nat) -> Seq<char> {
    decimal(n) + " policy problem"@ + (if n == 1 { Seq::empty() } else { "s"@ })
        + " need attention. Until each is resolved the object stays hidden and out of ordinary calculations."@
}

pub fn problems_alert_text(n: u64) -> (r: String)
    ensures
        r@ == problems_alert(n as nat),
{
    let mut s = String::new();
    push_decimal(&mut s, n);
    push_str(&mut s, " policy problem");
    if n != 1 {
        push_str(&mut s, "s");
    }
    push_str(&mut s, " need attention. Until each is resolved the object stays hidden and out of ordinary calculations.");
    proof {
        assert(s@ =~= problems_alert(n as nat));
    }
    s
}

/// Beside the policy count: how many of the listed objects the viewer owns.
pub open spec fn owned_note(n: nat) -> Seq<char> {
    "· "@ + decimal(n) + " owned by you"@
}

pub fn owned_note_text(n: u64) -> (r: String)
    ensures
        r@ == owned_note(n as nat),
{
    let mut s = String::new();
    push_str(&mut s, "· ");
    push_decimal(&mut s, n);
    push_str(&mut s, " owned by you");
    proof {
        assert(s@ =~= owned_note(n as nat));
    }
    s
}

/// Whether the viewer may set an object's first policy: the household's
/// administrator or the object's owner.
pub open spec fn may_set_initial_policy(administers: bool, owns: bool) -> bool {
    administers || owns
}

pub fn can_set_initial_policy(administers: bool, owns: bool) -> (r: bool)
    ensures
        r == may_set_initial_policy(administers, owns),
{
    administers || owns
}

/// What a policy's detail shows, as the viewer may read it.
#[derive(Clone, Debug)]
pub struct PolicyDetail {
    /// The aspect lines shown: all of them to an owner or to a viewer with
    /// full disclosure, none to anyone else.
    pub aspects: Vec<String>,
    /// Whether the aspects section is open.
    pub aspects_open: bool,
    /// Whether the version history is open.
    pub versions_open: bool,
    /// `Version history (3)`.
    pub versions_title: String,
    /// `You own this object · Version 3 · Effective 05 Mar 2024`.
    pub description: String,
}

/// Whether the viewer may read how a policy's aspects are shared.
pub open spec fn may_read_aspects(owned: bool, disclosure: Disclosure) -> bool {
    owned || disclosure == Disclosure::Full
}

/// The detail's description line.
pub open spec fn policy_description(owned: bool, disclosure_label: Seq<char>, version: nat, effective: i32) -> Seq<char> {
    (if owned { "You own this object"@ } else { "Your disclosure: "@ + disclosure_label })
        + " · Version "@ + decimal(version) + " · Effective "@ + calendar_text(effective, DatePattern::DayMonthYear)
}

/// The title of the version history: the earlier versions and the current one.
pub open spec fn versions_title(previous_versions: nat) -> Seq<char> {
    "Version history ("@ + decimal(previous_versions + 1) + ")"@
}

/// Whether the first section is open: when the viewer opened it, or when no
/// section was opened at all.
pub open spec fn aspects_section_open(open: Seq<usize>) -> bool {
    open.contains(0usize) || open.len() == 0
}

fn contains_index(open: &Vec<usize>, k: usize) -> (r: bool)
    ensures
        r == open@.contains(k),
{
    let n = open.len();
    for i in 0..n
        invariant
            n == open@.len(),
            forall|j: int| 0 <= j < i ==> open@[j] != k,
    {
        if open[i] == k {
            return true;
        }
    }
    false
}

pub fn policy_detail(
    owned: bool,
    disclosure: Disclosure,
    disclosure_label: &str,
    lines: &Vec<String>,
    open: &Vec<usize>,
    version: u64,
    previous_versions: u64,
    effective: i32,
) -> (r: PolicyDetail)
    requires
        valid_day(effective as int),
        previous_versions < u64::MAX,
    ensures
        r.aspects@ == if may_read_aspects(owned, disclosure) { lines@ } else { Seq::<String>::empty() },
        r.aspects_open == aspects_section_open(open@),
        r.versions_open == open@.contains(1usize),
        r.versions_title@ == versions_title(previous_versions as nat),
        r.description@ == policy_description(owned, disclosure_label@, version as nat, effective),
{
    let aspects = if owned || disclosure == Disclosure::Full { lines.clone() } else { Vec::new() };
    let aspects_open = contains_index(open, 0) || open.len() == 0;
    let versions_open = contains_index(open, 1);
    let mut title = String::new();
    push_str(&mut title, "Version history (");
    push_decimal(&mut title, previous_versions + 1);
    push_str(&mut title, ")");
    let mut description = String::new();
    if owned {
        push_str(&mut description, "You own this object");
    } else {
        push_str(&mut description, "Your disclosure: ");
        push_str(&mut description, disclosure_label);
    }
    push_str(&mut description, " · Version ");
    push_decimal(&mut description, version);
    push_str(&mut description, " · Effective ");
    let d = date_text(effective, DatePattern::DayMonthYear);
    push_str(&mut description, d.as_str());
    proof {
        assert(title@ =~= versions_title(previous_versions as nat));
        if owned {
            assert(description@ =~= policy_description(owned, disclosure_label@, version as nat, effective));
        } else {
            assert(description@ =~= policy_description(owned, disclosure_label@, version as nat, effective));
        }
    }
    PolicyDetail { aspects, aspects_open, versions_open, versions_title: title, description }
}

/// The line under a policy's description: its owners, who changed it last
/// and when, and the preset it had before.
pub open spec fn owners_line(owners: Seq<Seq<char>>, changed_day: i32, changed_minute: nat, changed_by: Seq<char>, previous: Option<Seq<char>>) -> Seq<char> {
    "Owners: "@ + (if owners.len() == 0 { "None recorded"@ } else { joined(owners, ", "@) })
        + " · Changed "@ + stamp(changed_day, changed_minute) + " by "@ + changed_by
        + match previous { Some(p) => " · Previous preset: "@ + p, None => Seq::empty() }
}

pub fn owners_line_text(owners: &Vec<String>, changed_day: i32, changed_minute: u32, changed_by: &str, previous: &Option<String>) -> (r: String)
    requires
        valid_day(changed_day as int),
        changed_minute < 1440,
    ensures
        r@ == owners_line(texts(owners@), changed_day, changed_minute as nat, changed_by@, match previous { Some(p) => Some(p@), None => None }),
{
    let mut s = String::new();
    push_str(&mut s, "Owners: ");
    if owners.len() == 0 {
        push_str(&mut s, "None recorded");
    } else {
        let j = join_texts(owners, ", ");
        push_str(&mut s, j.as_str());
    }
    push_str(&mut s, " · Changed ");
    let d = date_text(changed_day, DatePattern::DayMonthYear);
    push_str(&mut s, d.as_str());
    push_str(&mut s, " ");
    push_two_digits(&mut s, (changed_minute / 60) as u64);
    push_str(&mut s, ":");
    push_two_digits(&mut s, (changed_minute % 60) as u64);
    push_str(&mut s, " by ");
    push_str(&mut s, changed_by);
    match previous {
        Some(p) => {
            push_str(&mut s, " · Previous preset: ");
            push_str(&mut s, p.as_str());
        },
        None => {},
    }
    proof {
        let prev = match previous { Some(p) => Some(p@), None => None };
        assert(texts(owners@).len() == owners@.len());
        assert(s@ =~= owners_line(texts(owners@), changed_day, changed_minute as nat, changed_by@, prev));
    }
    s
}

// ----- grants and the audit trail ---------------------------------------------

/// The line over the grant list.
pub open spec fn grants_as_of(as_of: i32) -> Seq<char> {
    "Status as of the reconciliation date, "@ + calendar_text(as_of, DatePattern::DayMonthYear) + "."@
}

pub fn grants_as_of_text(as_of: i32) -> (r: String)
    requires
        valid_day(as_of as int),
    ensures
        r@ == grants_as_of(as_of),
{
    let mut s = String::new();
    push_str(&mut s, "Status as of the reconciliation date, ");
    let d = date_text(as_of, DatePattern::DayMonthYear);
    push_str(&mut s, d.as_str());
    push_str(&mut s, ".");
    proof {
        assert(s@ =~= grants_as_of(as_of));
    }
    s
}

/// A grant's period in the list: `05 Mar 2024 – 31 Dec 2024`, or `… – no end`.
pub open spec fn grant_period(from: i32, to: Option<i32>) -> Seq<char> {
    calendar_text(from, DatePattern::DayMonthYear) + " – "@
        + match to { Some(t) => calendar_text(t, DatePattern::DayMonthYear), None => "no end"@ }
}

pub fn grant_period_text(from: i32, to: Option<i32>) -> (r: String)
    requires
        valid_day(from as int),
        to matches Some(t) ==> valid_day(t as int),
    ensures
        r@ == grant_period(from, to),
{
    let mut s = String::new();
    let f = date_text(from, DatePattern::DayMonthYear);
    push_str(&mut s, f.as_str());
    push_str(&mut s, " – ");
    match to {
        Some(t) => {
            let d = date_text(t, DatePattern::DayMonthYear);
            push_str(&mut s, d.as_str());
        },
        None => push_str(&mut s, "no end"),
    }
    proof {
        assert(s@ =~= grant_period(from, to));
    }
    s
}

/// A date in a grant's detail, or what stands in its place when there is none.
pub open spec fn dated_or(day: Option<i32>, none: Seq<char>) -> Seq<char> {
    match day { Some(d) => calendar_text(d, DatePattern::DayMonthYear), None => none }
}

/// The values of a grant's detail that the grant itself decides: its end
/// (`No end`), its revocation (`Not revoked`), who granted it and when, and
/// its note (`No note`).
pub open spec fn grant_detail_values(
    to: Option<i32>,
    revoked_on: Option<i32>,
    granted_day: i32,
    granted_minute: nat,
    granted_by: Seq<char>,
    note: Seq<char>,
) -> Seq<Seq<char>> {
    seq![
        dated_or(to, "No end"@),
        dated_or(revoked_on, "Not revoked"@),
        stamp(granted_day, granted_minute) + " by "@ + granted_by,
        if note.len() == 0 { "No note"@ } else { note },
    ]
}

fn dated_or_text(day: Option<i32>, none: &str) -> (r: String)
    requires
        day matches Some(d) ==> valid_day(d as int),
    ensures
        r@ == dated_or(day, none@),
{
    match day {
        Some(d) => date_text(d, DatePattern::DayMonthYear),
        None => none.to_string(),
    }
}

pub fn grant_detail_texts(
    to: Option<i32>,
    revoked_on: Option<i32>,
    granted_day: i32,
    granted_minute: u32,
    granted_by: &str,
    note: &str,
) -> (r: Vec<String>)
    requires
        to matches Some(t) ==> valid_day(t as int),
        revoked_on matches Some(t) ==> valid_day(t as int),
        valid_day(granted_day as int),
        granted_minute < 1440,
    ensures
        texts(r@) == grant_detail_values(to, revoked_on, granted_day, granted_minute as nat, granted_by@, note@),
{
    let mut r: Vec<String> = Vec::new();
    r.push(dated_or_text(to, "No end"));
    r.push(dated_or_text(revoked_on, "Not revoked"));
    let mut granted = String::new();
    let d = date_text(granted_day, DatePattern::DayMonthYear);
    push_str(&mut granted, d.as_str());
    push_str(&mut granted, " ");
    push_two_digits(&mut granted, (granted_minute / 60) as u64);
    push_str(&mut granted, ":");
    push_two_digits(&mut granted, (granted_minute % 60) as u64);
    push_str(&mut granted, " by ");
    push_str(&mut granted, granted_by);
    r.push(granted);
    if note.unicode_len() == 0 {
        r.push("No note".to_string());
    } else {
        r.push(note.to_string());
    }
    proof {
        assert(texts(r@) =~= grant_detail_values(to, revoked_on, granted_day, granted_minute as nat, granted_by@, note@));
    }
    r
}

/// The versions a policy change moved between: `v2 → v3`.
pub open spec fn version_change(from: nat, to: nat) -> Seq<char> {
    "v"@ + decimal(from) + " → v"@ + decimal(to)
}

pub fn version_change_text(from: u64, to: u64) -> (r: String)
    ensures
        r@ == version_change(from as nat, to as nat),
{
    let mut s = String::new();
    push_str(&mut s, "v");
    push_decimal(&mut s, from);
    push_str(&mut s, " → v");
    push_decimal(&mut s, to);
    proof {
        assert(s@ =~= version_change(from as nat, to as nat));
    }
    s
}

/// An audit event's version cell: `v3`, or a dash when the event names none.
pub open spec fn event_version(v: Option<u64>) -> Seq<char> {
    match v { Some(n) => "v"@ + decimal(n as nat), None => "—"@ }
}

pub fn event_version_text(v: Option<u64>) -> (r: String)
    ensures
        r@ == event_version(v),
{
    match v {
        Some(n) => {
            let mut s = String::new();
            push_str(&mut s, "v");
            push_decimal(&mut s, n);
            proof {
                assert(s@ =~= event_version(v));
            }
            s
        },
        None => "—".to_string(),
    }
}

// ----- where a selected grant or audit event can lead ---------------------------

/// The objects whose policy rows the viewer is shown, among the first `k`
/// policies, in the household's order.
pub open spec fn listed_objects(ps: Seq<PolicyInput>, k: nat) -> Seq<ObjectRef>
    decreases k,
{
    if k == 0 || k > ps.len() {
        Seq::empty()
    } else {
        let prev = listed_objects(ps, (k - 1) as nat);
        if existence_shown(ps[k - 1].disclosure) { prev.push(ps[k - 1].object.object) } else { prev }
    }
}

pub fn listed_policy_objects(policies: &Vec<PolicyInput>) -> (r: Vec<ObjectRef>)
    ensures
        r@ == listed_objects(policies@, policies@.len()),
{
    let mut out: Vec<ObjectRef> = Vec::new();
    let n = policies.len();
    for i in 0..n
        invariant
            n == policies@.len(),
            out@ == listed_objects(policies@, i as nat),
    {
        if shows_existence(policies[i].disclosure) {
            out.push(policies[i].object.object);
        }
    }
    out
}

fn listed_contains(listed: &Vec<ObjectRef>, object: ObjectRef) -> (r: bool)
    ensures
        r == listed@.contains(object),
{
    let n = listed.len();
    for i in 0..n
        invariant
            n == listed@.len(),
            forall|j: int| 0 <= j < i ==> listed@[j] != object,
    {
        if listed[i] == object {
            proof { assert(listed@.contains(listed@[i as int])); }
            return true;
        }
    }
    false
}

/// What the grant register's foot offers for the selected grant.
#[derive(Clone, Debug)]
pub struct GrantFooter {
    /// Whether its object's policy can be selected: only when the viewer is
    /// shown that policy.
    pub view_policy: bool,
    /// Whether it can be revoked: the viewer owns it and it is not revoked.
    pub revoke: bool,
    /// `Joint — Mortgage application`.
    pub note: String,
}

pub fn grant_footer(listed: &Vec<ObjectRef>, object: ObjectRef, owned: bool, revoked: bool, object_name: &str, purpose: &str) -> (r: GrantFooter)
    ensures
        r.view_policy == listed@.contains(object),
        r.revoke == (owned && !revoked),
        r.note@ == object_name@ + " — "@ + purpose@,
{
    let view_policy = listed_contains(listed, object);
    let mut note = String::new();
    push_str(&mut note, object_name);
    push_str(&mut note, " — ");
    push_str(&mut note, purpose);
    proof { assert(note@ =~= object_name@ + " — "@ + purpose@); }
    GrantFooter { view_policy, revoke: owned && !revoked, note }
}

/// Where an audit event's foot can lead: the object's policy, and the
/// object's own screen when it has one.
#[derive(Clone, Copy, Debug)]
pub struct AuditLinks {
    pub policy: ObjectRef,
    pub object: Option<PolicyTarget>,
}

/// The links of a selected audit event: none when it names no object or an
/// object whose policy the viewer is not shown.
pub open spec fn audit_links_of(listed: Seq<ObjectRef>, object: Option<ObjectRef>) -> Option<AuditLinks> {
    match object {
        Some(o) => if listed.contains(o) { Some(AuditLinks { policy: o, object: policy_target_of(o) }) } else { None },
        None => None,
    }
}

pub fn audit_links(listed: &Vec<ObjectRef>, object: Option<ObjectRef>) -> (r: Option<AuditLinks>)
    ensures
        r == audit_links_of(listed@, object),
{
    match object {
        Some(o) => {
            if listed_contains(listed, o) {
                Some(AuditLinks { policy: o, object: open_policy_object(o) })
            } else {
                None
            }
        },
        None => None,
    }
}

/// An object that no policy discloses to the viewer never becomes a link:
/// a grant on it cannot select its policy, and an audit event about it
/// offers neither its policy nor its screen.
pub proof fn redacted_objects_never_link(ps: Seq<PolicyInput>, o: ObjectRef)
    requires
        forall|i: int| 0 <= i < ps.len() && (#[trigger] ps[i]).object.object == o ==> !existence_shown(ps[i].disclosure),
    ensures
        !listed_objects(ps, ps.len()).contains(o),
        audit_links_of(listed_objects(ps, ps.len()), Some(o)) is None,
{
    listed_objects_exclude(ps, o, ps.len());
}

proof fn listed_objects_exclude(ps: Seq<PolicyInput>, o: ObjectRef, k: nat)
    requires
        k <= ps.len(),
        forall|i: int| 0 <= i < ps.len() && (#[trigger] ps[i]).object.object == o ==> !existence_shown(ps[i].disclosure),
    ensures
        !listed_objects(ps, k).contains(o),
    decreases k,
{
    if k > 0 {
        listed_objects_exclude(ps, o, (k - 1) as nat);
        let prev = listed_objects(ps, (k - 1) as nat);
        let p = ps[k - 1];
        if existence_shown(p.disclosure) {
            assert(p.object.object != o);
            assert forall|j: int| 0 <= j < prev.push(p.object.object).len() implies prev.push(p.object.object)[j] != o by {
                if j < prev.len() {
                    assert(prev.push(p.object.object)[j] == prev[j]);
                    assert(!prev.contains(o));
                }
            }
        }
    }
}

// ----- the commands' tooltips -------------------------------------------------------

/// `Change policy…`: only an owner can.
pub open spec fn change_policy_tip(owns_something: bool) -> Seq<char> {
    if owns_something { "Change the policy of an object you own"@ } else { "Only an object's owner can change its policy"@ }
}

/// `Grant access…`: only an owner can.
pub open spec fn grant_access_tip(owns_something: bool) -> Seq<char> {
    if owns_something { "Give access for one purpose and period"@ } else { "Only an object owner can grant access"@ }
}

/// `View object`: only kinds with a screen of their own.
pub open spec fn view_object_tip(navigable_kind: bool) -> Seq<char> {
    if navigable_kind { "Open this object's own screen"@ } else { "This kind of object has no screen of its own"@ }
}

/// `View policy` on a grant: only when the viewer is shown that policy.
pub open spec fn view_policy_tip(policy_listed: bool) -> Seq<char> {
    if policy_listed { "Select this object's policy"@ } else { "This object's policy is not disclosed to you"@ }
}

/// The tooltips of the sharing screens' commands, in the order above.
pub fn command_tips(owns_something: bool, object: ObjectRef, policy_listed: bool) -> (r: Vec<String>)
    ensures
        texts(r@) == seq![
            change_policy_tip(owns_something),
            grant_access_tip(owns_something),
            view_object_tip(navigable(object.kind)),
            view_policy_tip(policy_listed),
        ],
{
    let mut out: Vec<String> = Vec::new();
    out.push(if owns_something {
        String::from_str("Change the policy of an object you own")
    } else {
        String::from_str("Only an object's owner can change its policy")
    });
    out.push(if owns_something {
        String::from_str("Give access for one purpose and period")
    } else {
        String::from_str("Only an object owner can grant access")
    });
    out.push(if crate::access::object_is_navigable(object) {
        String::from_str("Open this object's own screen")
    } else {
        String::from_str("This kind of object has no screen of its own")
    });
    out.push(if policy_listed {
        String::from_str("Select this object's policy")
    } else {
        String::from_str("This object's policy is not disclosed to you")
    });
    proof {
        assert(texts(out@) =~= seq![
            change_policy_tip(owns_something),
            grant_access_tip(owns_something),
            view_object_tip(navigable(object.kind)),
            view_policy_tip(policy_listed),
        ]);
    }
    out
}

/// The policy whose detail is shown: the one selected when the viewer is
/// shown it, else the first listed one.
pub open spec fn shown_policy_of(selected: Option<ObjectRef>, listed: Seq<ObjectRef>) -> Option<ObjectRef> {
    if selected matches Some(o) && listed.contains(o) {
        selected
    } else if listed.len() > 0 {
        Some(listed[0])
    } else {
        None
    }
}

pub fn shown_policy(selected: Option<ObjectRef>, listed: &Vec<ObjectRef>) -> (r: Option<ObjectRef>)
    ensures
        r == shown_policy_of(selected, listed@),
        r matches Some(o) ==> listed@.contains(o),
{
    match selected {
        Some(o) => {
            if listed_contains(listed, o) {
                return Some(o);
            }
        },
        None => {},
    }
    if listed.len() > 0 {
        proof { assert(listed@.contains(listed@[0])); }
        Some(listed[0])
    } else {
        None
    }
}

} // verus!
