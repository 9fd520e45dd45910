//! Settings: a band of facts laid out a fixed number to a row, the last row
//! padded so every row is a full grid, and the sentences of the settings
//! page.

use vstd::prelude::*;
use crate::text::{decimal, join_texts, joined, push_decimal, push_str, texts};

verus! {

/// The cell at row `r`, column `c` of a band of `n` facts `per_row` to a row:
/// the fact's position, or a blank after the last fact.
pub open spec fn cell_of(per_row: nat, n: nat, r: nat, c: nat) -> Option<usize> {
    if r * per_row + c < n { Some((r * per_row + c) as usize) } else { None }
}

/// Lays out `n` facts `per_row` to a row: rows of exactly `per_row` cells,
/// as many rows as the facts need, blanks only after the last fact.
pub fn grid(per_row: usize, n: usize) -> (rows: Vec<Vec<Option<usize>>>)
    requires
        per_row > 0,
    ensures
        forall|r: int| 0 <= r < rows@.len() ==> (#[trigger] rows@[r])@.len() == per_row,
        forall|r: int, c: int|
            0 <= r < rows@.len() && 0 <= c < per_row ==> #[trigger] rows@[r]@[c] == cell_of(
                per_row as nat,
                n as nat,
                r as nat,
                c as nat,
            ),
        n == 0 ==> rows@.len() == 0,
        n > 0 ==> (rows@.len() - 1) * per_row < n <= rows@.len() * per_row,
{
    let mut rows: Vec<Vec<Option<usize>>> = Vec::new();
    if n == 0 {
        return rows;
    }
    let mut start: usize = 0;
    assert(rows@.len() * per_row == 0) by (nonlinear_arith)
        requires
            rows@.len() == 0,
    ;
    loop
        invariant_except_break
            start < n,
            start == rows@.len() * per_row,
        invariant
            per_row > 0,
            n > 0,
            forall|r: int| 0 <= r < rows@.len() ==> (#[trigger] rows@[r])@.len() == per_row,
            forall|r: int, c: int|
                0 <= r < rows@.len() && 0 <= c < per_row ==> #[trigger] rows@[r]@[c] == cell_of(
                    per_row as nat,
                    n as nat,
                    r as nat,
                    c as nat,
                ),
        ensures
            rows@.len() > 0,
            (rows@.len() - 1) * per_row < n <= rows@.len() * per_row,
        decreases n - start,
    {
        let mut row: Vec<Option<usize>> = Vec::new();
        let mut c: usize = 0;
        while c < per_row
            invariant
                per_row > 0,
                start < n,
                start == rows@.len() * per_row,
                c <= per_row,
                row@.len() == c,
                forall|k: int|
                    0 <= k < c ==> #[trigger] row@[k] == cell_of(
                        per_row as nat,
                        n as nat,
                        rows@.len() as nat,
                        k as nat,
                    ),
            decreases per_row - c,
        {
            if c < n - start {
                row.push(Some(start + c));
            } else {
                row.push(None);
            }
            c = c + 1;
        }
        let ghost k = rows@.len();
        rows.push(row);
        proof {
            assert((k + 1) * per_row == k * per_row + per_row) by (nonlinear_arith);
        }
        if n - start <= per_row {
            break;
        }
        start = start + per_row;
    }
    rows
}

// ----- the settings page's facts -----------------------------------------------

/// The base currency fact: its code, and that a household keeps one.
pub open spec fn currency_fact(code: Seq<char>) -> Seq<char> {
    code + " — one currency per household; no conversion"@
}

pub fn currency_fact_text(code: &str) -> (r: String)
    ensures
        r@ == currency_fact(code@),
{
    let mut s = String::new();
    push_str(&mut s, code);
    push_str(&mut s, " — one currency per household; no conversion");
    proof {
        assert(s@ =~= currency_fact(code@));
    }
    s
}

/// The file fact: its path, or that the household has not been saved.
pub open spec fn file_fact(path: Option<Seq<char>>) -> Seq<char> {
    match path {
        Some(p) => p,
        None => "Not saved to a file yet"@,
    }
}

pub fn file_fact_text(path: Option<&str>) -> (r: String)
    ensures
        r@ == file_fact(
            match path {
                Some(p) => Some(p@),
                None => None,
            },
        ),
{
    match path {
        Some(p) => {
            let mut s = String::new();
            push_str(&mut s, p);
            proof {
                assert(s@ =~= p@);
            }
            s
        },
        None => "Not saved to a file yet".to_string(),
    }
}

/// What `Copy file path` reports: the copy, or that there is nothing to copy.
pub open spec fn copy_path_note(saved: bool) -> Seq<char> {
    if saved { "File path copied."@ } else { "Not saved to a file yet."@ }
}

pub fn copy_path_note_text(saved: bool) -> (r: String)
    ensures
        r@ == copy_path_note(saved),
{
    if saved { "File path copied.".to_string() } else { "Not saved to a file yet.".to_string() }
}

/// The lock notice at the top of the page when someone else has the file open.
pub open spec fn lock_notice(owner: Seq<char>, since: Seq<char>) -> Seq<char> {
    owner + " opened it "@ + since
        + ". Save as… writes a copy at a different path; the original file is never written from this session."@
}

pub fn lock_notice_text(owner: &str, since: &str) -> (r: String)
    ensures
        r@ == lock_notice(owner@, since@),
{
    let mut s = String::new();
    push_str(&mut s, owner);
    push_str(&mut s, " opened it ");
    push_str(&mut s, since);
    push_str(&mut s, ". Save as… writes a copy at a different path; the original file is never written from this session.");
    proof {
        assert(s@ =~= lock_notice(owner@, since@));
    }
    s
}

/// The note under the files: how many backups are kept.
pub open spec fn backups_note(kept: nat) -> Seq<char> {
    "A copy of the previous file is kept in a backups folder next to it on every save; up to "@ + decimal(kept)
        + " kept."@
}

pub fn backups_note_text(kept: u64) -> (r: String)
    ensures
        r@ == backups_note(kept as nat),
{
    let mut s = String::new();
    push_str(&mut s, "A copy of the previous file is kept in a backups folder next to it on every save; up to ");
    push_decimal(&mut s, kept);
    push_str(&mut s, " kept.");
    proof {
        assert(s@ =~= backups_note(kept as nat));
    }
    s
}

/// The frame-time readout fact.
pub open spec fn readout_fact(overlay: bool) -> Seq<char> {
    if overlay {
        "Overlay on; gpui's reading is in the status bar"@
    } else {
        "Overlay off; gpui's reading is in the status bar"@
    }
}

pub fn readout_fact_text(overlay: bool) -> (r: String)
    ensures
        r@ == readout_fact(overlay),
{
    if overlay {
        "Overlay on; gpui's reading is in the status bar".to_string()
    } else {
        "Overlay off; gpui's reading is in the status bar".to_string()
    }
}

/// Where failures go: the team chat when alerting is configured, the logs
/// otherwise.
pub open spec fn failures_fact(alerting: bool) -> Seq<char> {
    if alerting {
        "Posted to the team chat"@
    } else {
        "Written to logs only — set DEVBENCH_NOTIFY_URL and DEVBENCH_NOTIFY_TOKEN in the launch environment to post them"@
    }
}

pub fn failures_fact_text(alerting: bool) -> (r: String)
    ensures
        r@ == failures_fact(alerting),
{
    if alerting {
        "Posted to the team chat".to_string()
    } else {
        "Written to logs only — set DEVBENCH_NOTIFY_URL and DEVBENCH_NOTIFY_TOKEN in the launch environment to post them".to_string()
    }
}

/// The version fact.
pub open spec fn version_fact(version: Seq<char>) -> Seq<char> {
    "Atlas Financer "@ + version
}

pub fn version_fact_text(version: &str) -> (r: String)
    ensures
        r@ == version_fact(version@),
{
    let mut s = String::new();
    push_str(&mut s, "Atlas Financer ");
    push_str(&mut s, version);
    proof {
        assert(s@ =~= version_fact(version@));
    }
    s
}

/// What the `--screen` launch option says, with the screens it knows.
pub open spec fn screen_option(slugs: Seq<String>) -> Seq<char> {
    "Start surface; the original area names still work. Known: "@ + joined(texts(slugs), ", "@) + "."@
}

pub fn screen_option_text(slugs: &Vec<String>) -> (r: String)
    ensures
        r@ == screen_option(slugs@),
{
    let mut s = String::new();
    push_str(&mut s, "Start surface; the original area names still work. Known: ");
    let j = join_texts(slugs, ", ");
    push_str(&mut s, j.as_str());
    push_str(&mut s, ".");
    proof { assert(s@ =~= screen_option(slugs@)); }
    s
}

} // verus!
