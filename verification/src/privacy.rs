//! Privacy & authorization: which policies, grants and audit events a
//! viewer is shown, how objects are named to a viewer who may not know of
//! them, which problems they may act on and which denial is explained.

use vstd::prelude::*;
use crate::access::{Disclosure, NamedObject, existence_shown, name_of, name_text, private_kind, private_kind_text, shown_name, shown_name_text, shows_existence};
use crate::assumptions::{TagText, TagTone};
use crate::text::{DatePattern, calendar_text, date_text, decimal, push_decimal, push_str, valid_day};

verus! {

/// One access policy as the engine reports it for the viewer.
#[derive(Clone, Debug)]
pub struct PolicyInput {
    /// The object the policy governs.
    pub object: NamedObject,
    /// What the policy discloses to the viewer.
    pub disclosure: Disclosure,
    /// Whether the viewer is among the policy's full-access owners.
    pub viewer_owns: bool,
}

/// A policy row the viewer is shown.
#[derive(Clone, Debug)]
pub struct PolicyRow {
    /// The position of the policy in the household's list.
    pub policy: usize,
    /// The object's name, or its kind when it has no name.
    pub object_name: String,
    pub owned: bool,
    pub viewer_disclosure: Disclosure,
}

/// A grant as the engine reports it for the viewer.
#[derive(Clone, Debug)]
pub struct GrantInput {
    pub object: NamedObject,
    /// What the household discloses of the granted object to the viewer.
    pub object_disclosure: Disclosure,
    /// Whether the grantee covers the viewer.
    pub covers_viewer: bool,
    pub grantee: String,
    pub purpose: String,
    /// Whether the viewer may administer the granted object.
    pub viewer_administers: bool,
    /// Whether the grant is in effect on the reconciliation date.
    pub in_effect: bool,
}

#[derive(Clone, Debug)]
pub struct GrantRow {
    pub grant: usize,
    pub object_name: String,
    pub grantee: String,
    pub purpose: String,
    pub owned: bool,
    pub in_effect: bool,
}

/// The object an audit event is about, with its disclosure to the viewer.
#[derive(Clone, Debug)]
pub struct AuditObject {
    pub object: NamedObject,
    pub disclosure: Disclosure,
}

#[derive(Clone, Debug)]
pub struct AuditInput {
    /// The name of the person who acted.
    pub actor: String,
    pub object: Option<AuditObject>,
}

#[derive(Clone, Debug)]
pub struct AuditRow {
    pub event: usize,
    pub actor: String,
    pub object_name: String,
}

/// A fail-closed problem and whether the viewer may administer its object.
#[derive(Clone, Copy, Debug)]
pub struct ProblemInput {
    pub viewer_administers: bool,
}

/// Everything the privacy screen shows.
#[derive(Clone, Debug)]
pub struct PrivacyModel {
    pub policies: Vec<PolicyRow>,
    pub hidden_policies: usize,
    pub grants: Vec<GrantRow>,
    /// Newest first.
    pub audit: Vec<AuditRow>,
    /// Positions of the problems the viewer is shown.
    pub problems: Vec<usize>,
    /// The policy whose denial is explained: the first one that hides its
    /// object from the viewer.
    pub denial_policy: Option<usize>,
    pub viewer_is_owner_of: usize,
}

// ----- the model, stated over prefixes ----------------------------------------

/// A policy row as the specification reads it.
pub struct PolicyRowView {
    pub policy: int,
    pub object_name: Seq<char>,
    pub owned: bool,
    pub viewer_disclosure: Disclosure,
}

pub open spec fn policy_row_view(r: PolicyRow) -> PolicyRowView {
    PolicyRowView { policy: r.policy as int, object_name: r.object_name@, owned: r.owned, viewer_disclosure: r.viewer_disclosure }
}

/// The name a policy row gives its object: the object's name, or its kind.
pub open spec fn policy_object_name(p: PolicyInput) -> Seq<char> {
    match name_of(p.object) {
        Some(n) => n,
        None => private_kind(p.object.object.kind),
    }
}

/// The rows of the first `k` policies: those whose object's existence the
/// viewer may learn, in the household's order.
pub open spec fn policy_rows(ps: Seq<PolicyInput>, k: nat) -> Seq<PolicyRowView>
    decreases k,
{
    if k == 0 || k > ps.len() {
        Seq::empty()
    } else {
        let prev = policy_rows(ps, (k - 1) as nat);
        let p = ps[k - 1];
        if existence_shown(p.disclosure) {
            prev.push(PolicyRowView { policy: k - 1, object_name: policy_object_name(p), owned: p.viewer_owns, viewer_disclosure: p.disclosure })
        } else {
            prev
        }
    }
}

/// How many of the first `k` policies hide their object from the viewer.
pub open spec fn hidden_policy_count(ps: Seq<PolicyInput>, k: nat) -> nat
    decreases k,
{
    if k == 0 || k > ps.len() {
        0
    } else {
        hidden_policy_count(ps, (k - 1) as nat) + if existence_shown(ps[k - 1].disclosure) { 0nat } else { 1nat }
    }
}

/// How many of the first `k` policies the viewer owns.
pub open spec fn owned_policy_count(ps: Seq<PolicyInput>, k: nat) -> nat
    decreases k,
{
    if k == 0 || k > ps.len() {
        0
    } else {
        owned_policy_count(ps, (k - 1) as nat) + if ps[k - 1].viewer_owns { 1nat } else { 0nat }
    }
}

/// The first policy that hides its object from the viewer.
pub open spec fn first_hidden_policy(ps: Seq<PolicyInput>) -> Option<int> {
    if exists|i: int| 0 <= i < ps.len() && !existence_shown(#[trigger] ps[i].disclosure) {
        let i = choose|i: int| 0 <= i < ps.len() && !existence_shown(#[trigger] ps[i].disclosure)
            && forall|j: int| 0 <= j < i ==> existence_shown(#[trigger] ps[j].disclosure);
        Some(i)
    } else {
        None
    }
}

pub struct GrantRowView {
    pub grant: int,
    pub object_name: Seq<char>,
    pub grantee: Seq<char>,
    pub purpose: Seq<char>,
    pub owned: bool,
    pub in_effect: bool,
}

pub open spec fn grant_row_view(r: GrantRow) -> GrantRowView {
    GrantRowView { grant: r.grant as int, object_name: r.object_name@, grantee: r.grantee@, purpose: r.purpose@, owned: r.owned, in_effect: r.in_effect }
}

/// A grant is listed when the viewer may learn of its object or is its grantee.
pub open spec fn grant_listed(g: GrantInput) -> bool {
    existence_shown(g.object_disclosure) || g.covers_viewer
}

pub open spec fn grant_rows(gs: Seq<GrantInput>, k: nat) -> Seq<GrantRowView>
    decreases k,
{
    if k == 0 || k > gs.len() {
        Seq::empty()
    } else {
        let prev = grant_rows(gs, (k - 1) as nat);
        let g = gs[k - 1];
        if grant_listed(g) {
            prev.push(GrantRowView {
                grant: k - 1,
                object_name: shown_name(g.object, g.object_disclosure),
                grantee: g.grantee@,
                purpose: g.purpose@,
                owned: g.viewer_administers,
                in_effect: g.in_effect,
            })
        } else {
            prev
        }
    }
}

pub struct AuditRowView {
    pub event: int,
    pub actor: Seq<char>,
    pub object_name: Seq<char>,
}

pub open spec fn audit_row_view(r: AuditRow) -> AuditRowView {
    AuditRowView { event: r.event as int, actor: r.actor@, object_name: r.object_name@ }
}

/// The object column of an audit row: a dash when the event names no
/// object, the kind alone when the viewer may not learn of it.
pub open spec fn audit_object_name(e: AuditInput) -> Seq<char> {
    match e.object {
        None => "—"@,
        Some(o) => shown_name(o.object, o.disclosure),
    }
}

/// The audit log newest first: row `j` is event `n - 1 - j`.
pub open spec fn audit_row(es: Seq<AuditInput>, j: int) -> AuditRowView {
    let i = es.len() - 1 - j;
    AuditRowView { event: i, actor: es[i].actor@, object_name: audit_object_name(es[i]) }
}

/// The problems the viewer is shown among the first `k`: every one for the
/// household's owner, otherwise those whose object they may administer.
pub open spec fn shown_problems(ps: Seq<ProblemInput>, viewer_is_household_owner: bool, k: nat) -> Seq<int>
    decreases k,
{
    if k == 0 || k > ps.len() {
        Seq::empty()
    } else {
        let prev = shown_problems(ps, viewer_is_household_owner, (k - 1) as nat);
        if ps[k - 1].viewer_administers || viewer_is_household_owner {
            prev.push(k - 1)
        } else {
            prev
        }
    }
}

// ----- computing it ---------------------------------------------------------------

/// Every policy is either listed or counted as hidden, never both, and a
/// listed one always discloses its object's existence to the viewer.
pub proof fn policies_listed_or_hidden(ps: Seq<PolicyInput>, k: nat)
    requires
        k <= ps.len(),
    ensures
        policy_rows(ps, k).len() + hidden_policy_count(ps, k) == k,
        forall|i: int| 0 <= i < policy_rows(ps, k).len() ==> existence_shown(#[trigger] policy_rows(ps, k)[i].viewer_disclosure),
    decreases k,
{
    if k > 0 {
        policies_listed_or_hidden(ps, (k - 1) as nat);
    }
}

/// A grant is listed when the viewer may learn its object exists or is its
/// grantee; a grant on a hidden object names only the object's kind.
pub proof fn grants_never_name_hidden_objects(gs: Seq<GrantInput>, k: nat)
    requires
        k <= gs.len(),
    ensures
        forall|i: int| 0 <= i < grant_rows(gs, k).len() ==> {
            let r = #[trigger] grant_rows(gs, k)[i];
            &&& 0 <= r.grant < k
            &&& grant_listed(gs[r.grant])
            &&& !existence_shown(gs[r.grant].object_disclosure) ==> r.object_name == private_kind(gs[r.grant].object.object.kind)
        },
    decreases k,
{
    if k > 0 {
        grants_never_name_hidden_objects(gs, (k - 1) as nat);
    }
}

proof fn grant_rows_members(gs: Seq<GrantInput>, k: nat)
    requires
        k <= gs.len(),
    ensures
        forall|i: int| 0 <= i < grant_rows(gs, k).len() ==> {
            let g = #[trigger] grant_rows(gs, k)[i].grant;
            &&& 0 <= g < k
            &&& (gs[g].object_disclosure != Disclosure::Hidden && gs[g].object_disclosure != Disclosure::Aggregate)
                || gs[g].covers_viewer
        },
        forall|j: int| 0 <= j < k && ((#[trigger] gs[j].object_disclosure != Disclosure::Hidden
            && gs[j].object_disclosure != Disclosure::Aggregate) || gs[j].covers_viewer)
            ==> exists|i: int| 0 <= i < grant_rows(gs, k).len() && #[trigger] grant_rows(gs, k)[i].grant == j,
    decreases k,
{
    if k > 0 {
        grant_rows_members(gs, (k - 1) as nat);
        let prev = grant_rows(gs, (k - 1) as nat);
        let cur = grant_rows(gs, k);
        assert forall|i: int| 0 <= i < cur.len() implies {
            let g = #[trigger] cur[i].grant;
            &&& 0 <= g < k
            &&& (gs[g].object_disclosure != Disclosure::Hidden && gs[g].object_disclosure != Disclosure::Aggregate)
                || gs[g].covers_viewer
        } by {
            if i < prev.len() {
                assert(cur[i] == prev[i]);
            }
        }
        assert forall|j: int| 0 <= j < k && ((#[trigger] gs[j].object_disclosure != Disclosure::Hidden
            && gs[j].object_disclosure != Disclosure::Aggregate) || gs[j].covers_viewer)
            implies exists|i: int| 0 <= i < cur.len() && #[trigger] cur[i].grant == j by {
            if j < k - 1 {
                let m = choose|m: int| 0 <= m < prev.len() && #[trigger] prev[m].grant == j;
                assert(cur[m] == prev[m]);
                assert(cur[m].grant == j);
            } else {
                assert(cur[cur.len() - 1].grant == j);
            }
        }
    }
}

/// The grants listed are exactly those whose object the viewer may learn
/// exists (neither hidden nor disclosed only in aggregate), whoever holds
/// them, and those held by the viewer: every such grant has a row, and
/// every row is of such a grant.
pub proof fn grants_listed_exactly(gs: Seq<GrantInput>)
    ensures
        forall|i: int| 0 <= i < grant_rows(gs, gs.len()).len() ==> {
            let g = #[trigger] grant_rows(gs, gs.len())[i].grant;
            &&& 0 <= g < gs.len()
            &&& (gs[g].object_disclosure != Disclosure::Hidden && gs[g].object_disclosure != Disclosure::Aggregate)
                || gs[g].covers_viewer
        },
        forall|j: int| 0 <= j < gs.len() && ((#[trigger] gs[j].object_disclosure != Disclosure::Hidden
            && gs[j].object_disclosure != Disclosure::Aggregate) || gs[j].covers_viewer)
            ==> exists|i: int| 0 <= i < grant_rows(gs, gs.len()).len() && #[trigger] grant_rows(gs, gs.len())[i].grant == j,
{
    grant_rows_members(gs, gs.len());
}

/// The audit log lists the events newest first, no event twice, and an event
/// about an object the viewer may not learn of names only the object's kind.
pub proof fn audit_log_newest_first_and_redacted(es: Seq<AuditInput>, j: int, k: int)
    requires
        0 <= j < k < es.len(),
    ensures
        0 <= audit_row(es, j).event < es.len(),
        audit_row(es, j).event > audit_row(es, k).event,
        es[audit_row(es, j).event].object matches Some(o)
            ==> (!existence_shown(o.disclosure) ==> audit_row(es, j).object_name == private_kind(o.object.object.kind)),
{
}

/// Two reports of one object that may differ only in what the viewer may not
/// learn: the same object, and the same name wherever the viewer may learn
/// that it exists.
pub open spec fn same_but_hidden_name(a: NamedObject, b: NamedObject, d: Disclosure) -> bool {
    a.object == b.object && (existence_shown(d) ==> a == b)
}

/// Two households' policies that differ at most in the names of objects
/// hidden from the viewer.
pub open spec fn policies_differ_in_hidden_names(p1: Seq<PolicyInput>, p2: Seq<PolicyInput>) -> bool {
    p1.len() == p2.len() && forall|i: int| 0 <= i < p1.len() ==> {
        &&& #[trigger] p1[i].disclosure == p2[i].disclosure
        &&& p1[i].viewer_owns == p2[i].viewer_owns
        &&& same_but_hidden_name(p1[i].object, p2[i].object, p1[i].disclosure)
    }
}

/// Two households' grants that differ at most in the names of objects
/// hidden from the viewer.
pub open spec fn grants_differ_in_hidden_names(g1: Seq<GrantInput>, g2: Seq<GrantInput>) -> bool {
    g1.len() == g2.len() && forall|i: int| 0 <= i < g1.len() ==> {
        &&& #[trigger] g1[i].object_disclosure == g2[i].object_disclosure
        &&& g1[i].covers_viewer == g2[i].covers_viewer
        &&& g1[i].grantee@ == g2[i].grantee@
        &&& g1[i].purpose@ == g2[i].purpose@
        &&& g1[i].viewer_administers == g2[i].viewer_administers
        &&& g1[i].in_effect == g2[i].in_effect
        &&& same_but_hidden_name(g1[i].object, g2[i].object, g1[i].object_disclosure)
    }
}

/// Two households' audit logs that differ at most in the names of objects
/// hidden from the viewer.
pub open spec fn audits_differ_in_hidden_names(e1: Seq<AuditInput>, e2: Seq<AuditInput>) -> bool {
    e1.len() == e2.len() && forall|i: int| 0 <= i < e1.len() ==> {
        &&& #[trigger] e1[i].actor@ == e2[i].actor@
        &&& match (e1[i].object, e2[i].object) {
            (None, None) => true,
            (Some(o1), Some(o2)) => o1.disclosure == o2.disclosure && same_but_hidden_name(o1.object, o2.object, o1.disclosure),
            _ => false,
        }
    }
}

proof fn policy_rows_ignore_hidden_names(p1: Seq<PolicyInput>, p2: Seq<PolicyInput>, k: nat)
    requires
        policies_differ_in_hidden_names(p1, p2),
        k <= p1.len(),
    ensures
        policy_rows(p1, k) == policy_rows(p2, k),
        hidden_policy_count(p1, k) == hidden_policy_count(p2, k),
    decreases k,
{
    if k > 0 {
        policy_rows_ignore_hidden_names(p1, p2, (k - 1) as nat);
        assert(p1[k - 1].disclosure == p2[k - 1].disclosure);
    }
}

proof fn grant_rows_ignore_hidden_names(g1: Seq<GrantInput>, g2: Seq<GrantInput>, k: nat)
    requires
        grants_differ_in_hidden_names(g1, g2),
        k <= g1.len(),
    ensures
        grant_rows(g1, k) == grant_rows(g2, k),
    decreases k,
{
    if k > 0 {
        grant_rows_ignore_hidden_names(g1, g2, (k - 1) as nat);
        assert(g1[k - 1].object_disclosure == g2[k - 1].object_disclosure);
    }
}

/// A viewer learns nothing of the names of objects hidden from them: two
/// households that differ only in those names give the viewer the same
/// policy rows, the same hidden count, the same grant rows and the same
/// audit log, each hidden object named by its kind alone in both.
pub proof fn hidden_names_never_shown(
    p1: Seq<PolicyInput>,
    p2: Seq<PolicyInput>,
    g1: Seq<GrantInput>,
    g2: Seq<GrantInput>,
    e1: Seq<AuditInput>,
    e2: Seq<AuditInput>,
)
    requires
        policies_differ_in_hidden_names(p1, p2),
        grants_differ_in_hidden_names(g1, g2),
        audits_differ_in_hidden_names(e1, e2),
    ensures
        policy_rows(p1, p1.len()) == policy_rows(p2, p2.len()),
        hidden_policy_count(p1, p1.len()) == hidden_policy_count(p2, p2.len()),
        grant_rows(g1, g1.len()) == grant_rows(g2, g2.len()),
        forall|j: int| 0 <= j < e1.len() ==> #[trigger] audit_row(e1, j) == audit_row(e2, j),
{
    policy_rows_ignore_hidden_names(p1, p2, p1.len());
    grant_rows_ignore_hidden_names(g1, g2, g1.len());
    assert forall|j: int| 0 <= j < e1.len() implies #[trigger] audit_row(e1, j) == audit_row(e2, j) by {
        let i = e1.len() - 1 - j;
        assert(e1[i].actor@ == e2[i].actor@);
    }
}

fn policy_name_text(p: &PolicyInput) -> (r: String)
    ensures
        r@ == policy_object_name(*p),
{
    match name_text(&p.object) {
        Some(n) => n,
        None => private_kind_text(p.object.object.kind),
    }
}

fn audit_object_text(e: &AuditInput) -> (r: String)
    ensures
        r@ == audit_object_name(*e),
{
    match &e.object {
        None => String::from_str("—"),
        Some(o) => shown_name_text(&o.object, o.disclosure),
    }
}

impl PrivacyModel {
    /// The privacy screen for one viewer.
    pub fn compute(
        policies: &Vec<PolicyInput>,
        grants: &Vec<GrantInput>,
        audit: &Vec<AuditInput>,
        problems: &Vec<ProblemInput>,
        viewer_is_household_owner: bool,
    ) -> (m: PrivacyModel)
        ensures
            m.policies@.map_values(|r: PolicyRow| policy_row_view(r)) == policy_rows(policies@, policies@.len()),
            m.hidden_policies == hidden_policy_count(policies@, policies@.len()),
            m.viewer_is_owner_of == owned_policy_count(policies@, policies@.len()),
            m.grants@.map_values(|r: GrantRow| grant_row_view(r)) == grant_rows(grants@, grants@.len()),
            m.audit@.len() == audit@.len(),
            forall|j: int| 0 <= j < audit@.len() ==> audit_row_view(#[trigger] m.audit@[j]) == audit_row(audit@, j),
            m.problems@.map_values(|i: usize| i as int) == shown_problems(problems@, viewer_is_household_owner, problems@.len()),
            match m.denial_policy {
                Some(i) => first_hidden_policy(policies@) == Some(i as int),
                None => first_hidden_policy(policies@) is None,
            },
    {
        // Policies: an object whose existence the viewer may not learn is not
        // listed at all; it is counted as hidden.
        let n = policies.len();
        let mut rows: Vec<PolicyRow> = Vec::new();
        let mut hidden: usize = 0;
        let mut owner_of: usize = 0;
        let mut denial: Option<usize> = None;
        for i in 0..n
            invariant
                n == policies@.len(),
                rows@.map_values(|r: PolicyRow| policy_row_view(r)) == policy_rows(policies@, i as nat),
                hidden == hidden_policy_count(policies@, i as nat),
                owner_of == owned_policy_count(policies@, i as nat),
                hidden <= i,
                owner_of <= i,
                match denial {
                    Some(d) => d < i && !existence_shown(policies@[d as int].disclosure)
                        && forall|j: int| 0 <= j < d ==> existence_shown(#[trigger] policies@[j].disclosure),
                    None => forall|j: int| 0 <= j < i ==> existence_shown(#[trigger] policies@[j].disclosure),
                },
        {
            let p = &policies[i];
            if p.viewer_owns {
                owner_of = owner_of + 1;
            }
            if !shows_existence(p.disclosure) {
                hidden = hidden + 1;
                if denial.is_none() {
                    denial = Some(i);
                }
                proof {
                    assert(policy_rows(policies@, (i + 1) as nat) == policy_rows(policies@, i as nat));
                }
            } else {
                let row = PolicyRow { policy: i, object_name: policy_name_text(p), owned: p.viewer_owns, viewer_disclosure: p.disclosure };
                let ghost before = rows@;
                rows.push(row);
                proof {
                    assert(rows@.map_values(|r: PolicyRow| policy_row_view(r)) =~= before.map_values(|r: PolicyRow| policy_row_view(r)).push(policy_row_view(row)));
                }
            }
        }
        proof {
            match denial {
                Some(d) => {
                    assert(0 <= d < policies@.len() && !existence_shown(policies@[d as int].disclosure));
                    let c = choose|c: int| 0 <= c < policies@.len() && !existence_shown(#[trigger] policies@[c].disclosure)
                        && forall|j: int| 0 <= j < c ==> existence_shown(#[trigger] policies@[j].disclosure);
                    assert(forall|j: int| 0 <= j < d ==> existence_shown(#[trigger] policies@[j].disclosure));
                    if c < d {
                        assert(existence_shown(policies@[c].disclosure));
                    } else if c > d {
                        assert(existence_shown(policies@[d as int].disclosure));
                    }
                },
                None => {},
            }
        }

        // Grants: listed when the viewer may learn of the object or holds the grant.
        let gn = grants.len();
        let mut grant_list: Vec<GrantRow> = Vec::new();
        for i in 0..gn
            invariant
                gn == grants@.len(),
                grant_list@.map_values(|r: GrantRow| grant_row_view(r)) == grant_rows(grants@, i as nat),
        {
            let g = &grants[i];
            if shows_existence(g.object_disclosure) || g.covers_viewer {
                let row = GrantRow {
                    grant: i,
                    object_name: shown_name_text(&g.object, g.object_disclosure),
                    grantee: g.grantee.clone(),
                    purpose: g.purpose.clone(),
                    owned: g.viewer_administers,
                    in_effect: g.in_effect,
                };
                let ghost before = grant_list@;
                grant_list.push(row);
                proof {
                    assert(grant_list@.map_values(|r: GrantRow| grant_row_view(r)) =~= before.map_values(|r: GrantRow| grant_row_view(r)).push(grant_row_view(row)));
                }
            }
        }

        // The audit log, newest first.
        let an = audit.len();
        let mut events: Vec<AuditRow> = Vec::new();
        let mut k = an;
        while k > 0
            invariant
                an == audit@.len(),
                k <= an,
                events@.len() == an - k,
                forall|j: int| 0 <= j < events@.len() ==> audit_row_view(#[trigger] events@[j]) == audit_row(audit@, j),
            decreases k,
        {
            k = k - 1;
            let e = &audit[k];
            let row = AuditRow { event: k, actor: e.actor.clone(), object_name: audit_object_text(e) };
            events.push(row);
        }

        // Problems.
        let pn = problems.len();
        let mut shown: Vec<usize> = Vec::new();
        for i in 0..pn
            invariant
                pn == problems@.len(),
                shown@.map_values(|x: usize| x as int) == shown_problems(problems@, viewer_is_household_owner, i as nat),
        {
            if problems[i].viewer_administers || viewer_is_household_owner {
                let ghost before = shown@;
                shown.push(i);
                proof {
                    assert(shown@.map_values(|x: usize| x as int) =~= before.map_values(|x: usize| x as int).push(i as int));
                }
            }
        }

        PrivacyModel {
            policies: rows,
            hidden_policies: hidden,
            grants: grant_list,
            audit: events,
            problems: shown,
            denial_policy: denial,
            viewer_is_owner_of: owner_of,
        }
    }
}

// ----- the privacy screen's sentences ------------------------------------------

fn text_of(t: &str) -> (r: String)
    ensures
        r@ == t@,
{
    let mut s = String::new();
    push_str(&mut s, t);
    proof {
        assert(s@ =~= t@);
    }
    s
}

/// The caveat at the top of the screen, naming who is looking.
pub open spec fn viewing_caveat(viewer: Seq<char>) -> Seq<char> {
    "Viewing as "@ + viewer
        + ". Objects whose existence you may not learn are not listed — not even as a count on their own row. Restricted contributions appear in explanations only as authorized aggregates, and a lone restricted term is suppressed rather than exposed as a difference."@
}

pub fn viewing_caveat_text(viewer: &str) -> (r: String)
    ensures
        r@ == viewing_caveat(viewer@),
{
    let mut s = text_of("Viewing as ");
    push_str(&mut s, viewer);
    push_str(
        &mut s,
        ". Objects whose existence you may not learn are not listed — not even as a count on their own row. Restricted contributions appear in explanations only as authorized aggregates, and a lone restricted term is suppressed rather than exposed as a difference.",
    );
    proof {
        assert(s@ =~= viewing_caveat(viewer@));
    }
    s
}

/// The policies' heading: how many the viewer sees, how many are theirs, and
/// how many objects are private to someone else.
pub open spec fn policies_heading(visible: nat, owned: nat, hidden: nat) -> Seq<char> {
    "Access policies — "@ + decimal(visible) + " visible to you, "@ + decimal(owned) + " of them yours"@ + if hidden > 0 {
        "; "@ + decimal(hidden) + " other objects are private to someone else"@
    } else {
        Seq::empty()
    }
}

pub fn policies_heading_text(visible: u64, owned: u64, hidden: u64) -> (r: String)
    ensures
        r@ == policies_heading(visible as nat, owned as nat, hidden as nat),
{
    let mut s = text_of("Access policies — ");
    push_decimal(&mut s, visible);
    push_str(&mut s, " visible to you, ");
    push_decimal(&mut s, owned);
    push_str(&mut s, " of them yours");
    if hidden > 0 {
        push_str(&mut s, "; ");
        push_decimal(&mut s, hidden);
        push_str(&mut s, " other objects are private to someone else");
    }
    proof {
        assert(s@ =~= policies_heading(visible as nat, owned as nat, hidden as nat));
    }
    s
}

/// Whether a policy row spells out its aspects: to its owners and to viewers
/// with full disclosure.
pub fn policy_lines_shown(row: &PolicyRow) -> (r: bool)
    ensures
        r == (row.owned || row.viewer_disclosure == Disclosure::Full),
{
    row.owned || row.viewer_disclosure == Disclosure::Full
}

/// A grant's standing in the grants table: revoked from a day, or whether it
/// is in effect today.
pub open spec fn grant_standing(revoked_on: Option<i32>, in_effect: bool) -> (TagTone, Seq<char>) {
    match revoked_on {
        Some(d) => (TagTone::Warning, "revoked from "@ + calendar_text(d, DatePattern::DayMonthYear)),
        None => if in_effect { (TagTone::Secondary, "in effect today"@) } else { (TagTone::Secondary, "not in effect today"@) },
    }
}

pub fn grant_standing_tag(revoked_on: Option<i32>, in_effect: bool) -> (r: TagText)
    requires
        revoked_on matches Some(d) ==> valid_day(d as int),
    ensures
        (r.tone, r.label@) == grant_standing(revoked_on, in_effect),
{
    match revoked_on {
        Some(d) => {
            let mut s = text_of("revoked from ");
            let t = date_text(d, DatePattern::DayMonthYear);
            push_str(&mut s, t.as_str());
            TagText { tone: TagTone::Warning, label: s }
        },
        None => if in_effect {
            TagText { tone: TagTone::Secondary, label: text_of("in effect today") }
        } else {
            TagText { tone: TagTone::Secondary, label: text_of("not in effect today") }
        },
    }
}

/// Whether a grant can be revoked from its row: the viewer administers its
/// object and it is not revoked yet.
pub fn can_revoke(row: &GrantRow, revoked_on: Option<i32>) -> (r: bool)
    ensures
        r == (row.owned && revoked_on is None),
{
    row.owned && revoked_on.is_none()
}

/// The grants' heading.
pub open spec fn grants_heading(count: nat) -> Seq<char> {
    "Purpose-specific grants — "@ + decimal(count)
}

pub fn grants_heading_text(count: u64) -> (r: String)
    ensures
        r@ == grants_heading(count as nat),
{
    let mut s = text_of("Purpose-specific grants — ");
    push_decimal(&mut s, count);
    proof {
        assert(s@ =~= grants_heading(count as nat));
    }
    s
}

/// The audit log's heading.
pub open spec fn audit_heading(count: nat) -> Seq<char> {
    "Privacy audit log — "@ + decimal(count) + " events, newest first"@
}

pub fn audit_heading_text(count: u64) -> (r: String)
    ensures
        r@ == audit_heading(count as nat),
{
    let mut s = text_of("Privacy audit log — ");
    push_decimal(&mut s, count);
    push_str(&mut s, " events, newest first");
    proof {
        assert(s@ =~= audit_heading(count as nat));
    }
    s
}

} // verus!
