use chrono::Datelike;
use atlas_screens::access::{Disclosure, NamedObject, ObjectKind, ObjectRef};
use atlas_screens::privacy::PolicyInput;
use atlas_screens::assumptions::TagTone;
use atlas_screens::earmarks::{balances_as_of_text as earmark_balances_text, money_today_text, path_elsewhere_text};
use atlas_screens::funding::funding_as_of_text;
use atlas_screens::liquidity::{deficit_note_text, figures_title_text, runway_title_text as liquidity_runway_text, shortfall_fact_text};
use atlas_screens::projections::{
    account_standing_tag, projections_header_text, runway_title_text as projection_runway_text, severity_line_text,
};
use atlas_screens::rules::{
    expected_through_text, fee_total_text, only_under_text, precedence_card_text, simulation_description_text,
};
use atlas_screens::scenarios::{
    ComparedEnd, attribution_check, detail_heading_texts, selection_lines_text, comparison_copy_text, comparison_subtitle_text, comparison_window_text,
    end_difference_text, more_points_text, pack_label_text,
};
use atlas_screens::settings::screen_option_text;
use atlas_screens::sharing::{
    PolicyTarget, audit_links, grant_footer, listed_policy_objects, can_set_initial_policy, event_version_text, grant_detail_texts, grant_period_text, grants_as_of_text,
    owned_note_text, owners_line_text, policy_detail, policy_item_meta_text, problems_alert_text,
    version_change_text,
};
use atlas_screens::taxes::reserve_title_text;
use atlas_screens::timeline::{
    amount_change_text, occurrences_title_text, overlay_label_text, series_clocks_text, still_to_come_text,
    timeline_header_text,
};
use atlas_screens::today::{balances_as_of_text, outlook_texts};

fn day(y: i32, m: u32, d: u32) -> i32 {
    chrono::NaiveDate::from_ymd_opt(y, m, d).unwrap().num_days_from_ce()
}

fn strings(items: &[&str]) -> Vec<String> {
    items.iter().map(|s| s.to_string()).collect()
}

// ----- sharing ----------------------------------------------------------------

#[test]
fn policy_list_lines() {
    assert_eq!(policy_item_meta_text("Private", true, "Full"), "Private · You own this");
    assert_eq!(policy_item_meta_text("Shared balance", false, "Balance only"), "Shared balance · Disclosure: Balance only");
    assert_eq!(
        problems_alert_text(1),
        "1 policy problem need attention. Until each is resolved the object stays hidden and out of ordinary calculations."
    );
    assert_eq!(
        problems_alert_text(3),
        "3 policy problems need attention. Until each is resolved the object stays hidden and out of ordinary calculations."
    );
    assert_eq!(owned_note_text(2), "· 2 owned by you");
    assert!(can_set_initial_policy(true, false));
    assert!(can_set_initial_policy(false, true));
    assert!(!can_set_initial_policy(false, false));
}

#[test]
fn policy_detail_for_an_owner() {
    let lines = strings(&["Existence: Household", "Balance: Owners only"]);
    let d = policy_detail(true, Disclosure::BalanceOnly, "Balance only", &lines, &vec![], 3, 2, day(2024, 3, 5));
    assert_eq!(d.aspects, lines);
    assert!(d.aspects_open);
    assert!(!d.versions_open);
    assert_eq!(d.versions_title, "Version history (3)");
    assert_eq!(d.description, "You own this object · Version 3 · Effective 05 Mar 2024");
}

#[test]
fn policy_detail_hides_aspects_below_full_disclosure() {
    let lines = strings(&["Existence: Household"]);
    let d = policy_detail(false, Disclosure::BalanceOnly, "Balance only", &lines, &vec![1], 1, 0, day(2024, 3, 5));
    assert!(d.aspects.is_empty());
    assert!(!d.aspects_open);
    assert!(d.versions_open);
    assert_eq!(d.versions_title, "Version history (1)");
    assert_eq!(d.description, "Your disclosure: Balance only · Version 1 · Effective 05 Mar 2024");
    let full = policy_detail(false, Disclosure::Full, "Full", &lines, &vec![0, 1], 1, 0, day(2024, 3, 5));
    assert_eq!(full.aspects, lines);
    assert!(full.aspects_open);
}

#[test]
fn owners_line_with_and_without_owners() {
    assert_eq!(
        owners_line_text(&strings(&["Person A", "Person B"]), day(2024, 3, 5), 14 * 60 + 7, "Person A", &Some("Private".to_string())),
        "Owners: Person A, Person B · Changed 05 Mar 2024 14:07 by Person A · Previous preset: Private"
    );
    assert_eq!(
        owners_line_text(&vec![], day(2024, 3, 5), 9, "Person B", &None),
        "Owners: None recorded · Changed 05 Mar 2024 00:09 by Person B"
    );
}

#[test]
fn grant_lines() {
    assert_eq!(grants_as_of_text(day(2025, 1, 15)), "Status as of the reconciliation date, 15 Jan 2025.");
    assert_eq!(grant_period_text(day(2025, 1, 1), None), "01 Jan 2025 – no end");
    assert_eq!(grant_period_text(day(2025, 1, 1), Some(day(2025, 12, 31))), "01 Jan 2025 – 31 Dec 2025");
    assert_eq!(
        grant_detail_texts(None, None, day(2025, 1, 2), 8 * 60 + 30, "Person A", ""),
        strings(&["No end", "Not revoked", "02 Jan 2025 08:30 by Person A", "No note"])
    );
    assert_eq!(
        grant_detail_texts(Some(day(2025, 6, 30)), Some(day(2025, 3, 1)), day(2025, 1, 2), 0, "Person A", "For the bank"),
        strings(&["30 Jun 2025", "01 Mar 2025", "02 Jan 2025 00:00 by Person A", "For the bank"])
    );
}

#[test]
fn audit_version_cells() {
    assert_eq!(version_change_text(2, 3), "v2 → v3");
    assert_eq!(event_version_text(Some(4)), "v4");
    assert_eq!(event_version_text(None), "—");
}

// ----- scenarios --------------------------------------------------------------

#[test]
fn comparison_subtitle_and_window() {
    assert_eq!(
        comparison_subtitle_text(&strings(&["Car", "Move"]), day(2026, 12, 31)),
        "Household · Car + Move · through 31 Dec 2026"
    );
    assert_eq!(comparison_subtitle_text(&vec![], day(2026, 12, 31)), "Household · no scenario selected · through 31 Dec 2026");
    assert_eq!(comparison_window_text(day(2025, 1, 15), day(2026, 12, 31)), "15 Jan 2025 through 31 Dec 2026");
    assert_eq!(pack_label_text("DE 2025", true), "DE 2025 (verified)");
    assert_eq!(pack_label_text("DE 2026", false), "DE 2026 (unverified)");
}

#[test]
fn more_points_after_forty() {
    assert_eq!(more_points_text(40), None);
    assert_eq!(more_points_text(52).as_deref(), Some("12 more points after these."));
}

#[test]
fn attribution_check_card_or_warning() {
    let ok = attribution_check(true, "+1,000.00", "+1,000.00");
    assert!(!ok.warning);
    assert_eq!(ok.title, "Sums exactly to the end difference");
    assert_eq!(ok.body, "Checked to the minor unit: +1,000.00");
    let bad = attribution_check(false, "+990.00", "+1,000.00");
    assert!(bad.warning);
    assert_eq!(bad.title, "Difference check failed");
    assert_eq!(
        bad.body,
        "The attribution sums to +990.00 but the end difference is +1,000.00. The comparison figures above stand; the breakdown does not."
    );
    assert_eq!(end_difference_text("+1,000.00", "+990.00"), "End difference +1,000.00 · attribution total +990.00");
}

#[test]
fn comparison_copy_with_and_without_a_result() {
    let names = strings(&["Car"]);
    assert_eq!(
        comparison_copy_text("Expected", day(2026, 12, 31), &names, &Some(ComparedEnd { end_delta: "-5,000.00".to_string(), verified: true })),
        "Scenario comparison\nHousehold · Expected case · through 31 Dec 2026\nSelection: Car\nEnd difference -5,000.00\nAttribution sums exactly\n"
    );
    assert_eq!(
        comparison_copy_text("Conservative", day(2026, 12, 31), &names, &Some(ComparedEnd { end_delta: "-5,000.00".to_string(), verified: false })),
        "Scenario comparison\nHousehold · Conservative case · through 31 Dec 2026\nSelection: Car\nEnd difference -5,000.00\nAttribution does not sum\n"
    );
    assert_eq!(
        comparison_copy_text("Expected", day(2026, 12, 31), &vec![], &None),
        "Scenario comparison\nHousehold · Expected case · through 31 Dec 2026\nSelection: \nEnd difference \nAttribution \n"
    );
}

// ----- rules ------------------------------------------------------------------

#[test]
fn rules_sentences() {
    assert_eq!(
        precedence_card_text("lowest id wins"),
        "Rules resolve by explicit priority, then scope specificity, then the tie-break policy (lowest id wins). Disabling a rule or changing its priority records a new version and keeps the old one."
    );
    assert_eq!(only_under_text(None), None);
    assert_eq!(only_under_text(Some("Car".to_string())).as_deref(), Some("Only under “Car”"));
    assert_eq!(
        simulation_description_text(day(2026, 12, 31)),
        "Household · Expected case · through 31 Dec 2026. The rule is evaluated enabled and disabled; the household is untouched."
    );
    assert_eq!(fee_total_text("12.00", day(2026, 12, 31)), "Total fees 12.00 · through 31 Dec 2026 · expected case");
    assert_eq!(expected_through_text(day(2026, 12, 31)), "Expected · Through 31 Dec 2026");
}

// ----- timeline -----------------------------------------------------------------

#[test]
fn timeline_sentences() {
    assert_eq!(
        timeline_header_text(14, day(2025, 1, 15), day(2025, 12, 31)),
        "14 planned movements from 15 Jan 2025 through 31 Dec 2025, each with its due, settlement and availability dates and whether it has been paid"
    );
    assert_eq!(overlay_label_text("Car"), "Overlay scenario “Car”");
    assert_eq!(occurrences_title_text(&None), "Occurrences — baseline");
    assert_eq!(occurrences_title_text(&Some("Car".to_string())), "Occurrences — baseline + scenario “Car”");
    assert_eq!(
        still_to_come_text("4,000.00", "2,500.00"),
        "Still to come: 4,000.00 in · 2,500.00 out (expected values, less what has already been received or paid). Skipped, cancelled and fulfilled rows post nothing."
    );
    assert_eq!(series_clocks_text("monthly on the 1st", 1, 2, 0), "monthly on the 1st · settles +1d · available +2d · order 0");
    assert_eq!(amount_change_text(day(2025, 1, 1), "1,200.00"), "from 01 Jan 2025: 1,200.00");
}

// ----- today, liquidity, projections, earmarks, taxes, funding, settings ----------

#[test]
fn today_sentences() {
    assert_eq!(balances_as_of_text(day(2025, 1, 15)), "Household · Balances as of 15 Jan 2025");
    let (title, description) = outlook_texts(day(2025, 12, 31), 48);
    assert_eq!(title, "Outlook through 31 Dec 2025");
    assert_eq!(description, "48 planned postings, taxes and fees included once");
}

#[test]
fn liquidity_sentences() {
    assert_eq!(figures_title_text("Household"), "Household — money definitions");
    assert_eq!(deficit_note_text(false, "0.00"), "No deficit against the hard floors");
    assert_eq!(
        deficit_note_text(true, "1,500.00"),
        "Deficit 1,500.00 reported separately — never hidden by the zero floor"
    );
    assert_eq!(
        liquidity_runway_text(day(2025, 12, 31)),
        "Runway of the household liquid-cash path against hard floors through 31 Dec 2025"
    );
    assert_eq!(shortfall_fact_text(1200), "1200 currency-days");
}

#[test]
fn projection_header_and_runway_sentences() {
    assert_eq!(
        projections_header_text(day(2025, 1, 15), day(2027, 1, 15)),
        "Chronological forecast from 15 Jan 2025 through 15 Jan 2027: reconciled cash plus every signed posting in date and intraday order. Future money is conditional, never available."
    );
    assert_eq!(projection_runway_text("5,000.00"), "Runway against the 5,000.00 hard floor");
    assert_eq!(
        severity_line_text(3, 4500),
        "Days below the floor 3 · integrated shortfall 4500 currency-days (severity over time, not cash)."
    );
}

#[test]
fn account_standing_puts_negative_before_the_floor() {
    let t = account_standing_tag(Some(day(2025, 5, 1)), Some(day(2025, 4, 1)));
    assert_eq!(t.tone, TagTone::Danger);
    assert_eq!(t.label, "negative from 01 May 2025");
    let t = account_standing_tag(None, Some(day(2025, 4, 1)));
    assert_eq!(t.tone, TagTone::Warning);
    assert_eq!(t.label, "below floor from 01 Apr 2025");
    let t = account_standing_tag(None, None);
    assert_eq!(t.tone, TagTone::Secondary);
    assert_eq!(t.label, "floor held");
}

#[test]
fn earmark_taxes_funding_settings_sentences() {
    assert_eq!(path_elsewhere_text("Person A"), "Person A's dated path lives in the forecast.");
    assert_eq!(earmark_balances_text(day(2025, 1, 15)), "Balances as of 15 Jan 2025");
    assert_eq!(money_today_text("Household"), "Household — money today");
    assert_eq!(reserve_title_text(day(2025, 12, 31)), "Incurred now, payable after 31 Dec 2025");
    assert_eq!(funding_as_of_text(day(2025, 1, 15)), "Funding as of 15 Jan 2025");
    assert_eq!(
        screen_option_text(&strings(&["today", "accounts"])),
        "Start surface; the original area names still work. Known: today, accounts."
    );
}

fn policy(kind: ObjectKind, id: u64, disclosure: Disclosure) -> PolicyInput {
    PolicyInput {
        object: NamedObject { object: ObjectRef { kind, id }, name: Some(format!("object {id}")), display: format!("object {id}") },
        disclosure,
        viewer_owns: false,
    }
}

#[test]
fn redacted_objects_never_become_links() {
    let policies = vec![
        policy(ObjectKind::Account, 1, Disclosure::Full),
        policy(ObjectKind::Account, 2, Disclosure::Hidden),
        policy(ObjectKind::Goal, 3, Disclosure::BalanceOnly),
    ];
    let listed = listed_policy_objects(&policies);
    let joint = ObjectRef { kind: ObjectKind::Account, id: 1 };
    let secret = ObjectRef { kind: ObjectKind::Account, id: 2 };
    let goal = ObjectRef { kind: ObjectKind::Goal, id: 3 };
    assert_eq!(listed, vec![joint, goal]);
    assert!(audit_links(&listed, Some(secret)).is_none());
    assert!(audit_links(&listed, None).is_none());
    let links = audit_links(&listed, Some(joint)).unwrap();
    assert_eq!(links.policy, joint);
    assert_eq!(links.object, Some(PolicyTarget::Account(1)));
    let goal_links = audit_links(&listed, Some(goal)).unwrap();
    assert_eq!(goal_links.object, None);
    let hidden = grant_footer(&listed, secret, true, false, "a private account", "Mortgage");
    assert!(!hidden.view_policy);
    assert!(hidden.revoke);
    assert_eq!(hidden.note, "a private account — Mortgage");
    let shown = grant_footer(&listed, joint, true, true, "Account: Joint", "Mortgage");
    assert!(shown.view_policy);
    assert!(!shown.revoke);
}

#[test]
fn scenario_selection_and_detail_heading() {
    assert_eq!(selection_lines_text(&strings(&["Car", "Move"])), strings(&["1. Car", "2. Move"]));
    assert!(selection_lines_text(&vec![]).is_empty());
    assert_eq!(detail_heading_texts(true, ""), ("Private to its owner".to_string(), "No description recorded.".to_string()));
    assert_eq!(detail_heading_texts(false, "A new car"), ("Shared with the household".to_string(), "A new car".to_string()));
}
