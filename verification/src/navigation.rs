//! The frame around every screen: which tab of a workspace is selected and
//! where a tab leads, the breadcrumb trail of a detail, and the line a
//! section that has not arrived yet shows.

use vstd::prelude::*;
use crate::text::{decimal, push_decimal, push_str};

verus! {

/// The tab a workspace header selects: the route's own tab, else the first.
pub fn selected_tab(route_tab: Option<usize>) -> (r: usize)
    ensures
        r == match route_tab {
            Some(t) => t,
            None => 0usize,
        },
{
    match route_tab {
        Some(t) => t,
        None => 0,
    }
}

/// Where a click on a workspace tab leads: the route of that tab, or nowhere
/// past the last tab.
pub fn tab_target<R: Copy>(routes: &Vec<R>, index: usize) -> (r: Option<R>)
    ensures
        index < routes@.len() ==> r == Some(routes@[index as int]),
        index >= routes@.len() ==> r is None,
{
    if index < routes.len() { Some(routes[index]) } else { None }
}

/// A detail's breadcrumb trail: the workspace, the parent register unless it
/// is the workspace itself, then the object.
pub open spec fn trail(destination: Seq<char>, parent: Seq<char>, name: Seq<char>) -> Seq<Seq<char>> {
    if parent == destination { seq![destination, name] } else { seq![destination, parent, name] }
}

fn copy_text(t: &str) -> (r: String)
    ensures
        r@ == t@,
{
    let mut s = String::new();
    push_str(&mut s, t);
    proof {
        assert(s@ =~= t@);
    }
    s
}

fn same_text(a: &str, b: &str) -> (r: bool)
    ensures
        r == (a@ == b@),
{
    let n = a.unicode_len();
    if n != b.unicode_len() {
        return false;
    }
    let mut i: usize = 0;
    while i < n
        invariant
            n == a@.len(),
            n == b@.len(),
            i <= n,
            forall|k: int| 0 <= k < i ==> a@[k] == b@[k],
        decreases n - i,
    {
        if a.get_char(i) != b.get_char(i) {
            return false;
        }
        i = i + 1;
    }
    proof {
        assert(a@ =~= b@);
    }
    true
}

pub fn breadcrumb_trail(destination: &str, parent: &str, name: &str) -> (r: Vec<String>)
    ensures
        r@.map_values(|t: String| t@) == trail(destination@, parent@, name@),
{
    let mut items: Vec<String> = Vec::new();
    items.push(copy_text(destination));
    let same = same_text(parent, destination);
    if !same {
        items.push(copy_text(parent));
    }
    items.push(copy_text(name));
    proof {
        assert(items@.map_values(|t: String| t@) =~= trail(destination@, parent@, name@));
    }
    items
}

/// A milestone a section is waiting for.
#[derive(Clone, Debug)]
pub struct Milestone {
    pub number: u64,
    pub title: String,
    pub task_id: u64,
}

/// What a section that has not arrived yet says of when it will.
pub open spec fn milestone_line(m: Option<Milestone>) -> Seq<char> {
    match m {
        Some(m) => "Arrives with milestone M"@ + decimal(m.number as nat) + " — "@ + m.title@ + " (board task #"@
            + decimal(m.task_id as nat) + ")"@,
        None => "Not planned"@,
    }
}

pub fn milestone_line_text(m: &Option<Milestone>) -> (r: String)
    ensures
        r@ == milestone_line(*m),
{
    match m {
        Some(ms) => {
            let mut s = String::new();
            push_str(&mut s, "Arrives with milestone M");
            push_decimal(&mut s, ms.number);
            push_str(&mut s, " — ");
            push_str(&mut s, ms.title.as_str());
            push_str(&mut s, " (board task #");
            push_decimal(&mut s, ms.task_id);
            push_str(&mut s, ")");
            proof {
                assert(s@ =~= milestone_line(*m));
            }
            s
        },
        None => "Not planned".to_string(),
    }
}

} // verus!
