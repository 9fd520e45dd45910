use chrono::Datelike;
use atlas_screens::access::{ObjectKind, ObjectRef};
use atlas_screens::accounts::{account_commands, balance_source_text, constraint_facts_text, policy_fact_text};
use atlas_screens::activity::{actual_facts, matched_to_text};
use atlas_screens::assumptions::{recompute_tip_text, visibility_fact_text};
use atlas_screens::decisions::{
    financing_line_text, free_and_floor_text, remainder_description_text, step_balance_text, strategy_note_text,
};
use atlas_screens::entities::jurisdiction_line_text;
use atlas_screens::household::projection_title_text;
use atlas_screens::liquidity::{Boundary, boundary_tab};
use atlas_screens::today::assumption_listing_of;
use atlas_screens::forecast::coverable_note_text;
use atlas_screens::rules::{own_status_text, simulation_scope_text};
use atlas_screens::scenarios::{overlay_origin_text, selection_tips_text, visibility_note_text};
use atlas_screens::sharing::command_tips;

fn day(y: i32, m: u32, d: u32) -> i32 {
    chrono::NaiveDate::from_ymd_opt(y, m, d).unwrap().num_days_from_ce()
}

fn strings(items: &[&str]) -> Vec<String> {
    items.iter().map(|s| s.to_string()).collect()
}

#[test]
fn actual_facts_for_a_partly_matched_transaction() {
    let f = actual_facts(day(2025, 2, 3), "−850.00", "", 5000, "50.00");
    assert_eq!(f.title, "Selected: −850.00 on 03 Feb 2025");
    assert_eq!(f.description, "Manual entry");
    assert_eq!(f.unallocated, "50.00");
    assert!(f.can_match);
}

#[test]
fn actual_facts_for_a_fully_matched_transaction() {
    let f = actual_facts(day(2025, 2, 3), "−850.00", "Rent Feb", 0, "0.00");
    assert_eq!(f.description, "Rent Feb");
    assert_eq!(f.unallocated, "Nothing left to match");
    assert!(!f.can_match);
    assert_eq!(matched_to_text("850.00"), "850.00 matched to");
}

#[test]
fn account_constraint_facts() {
    assert_eq!(constraint_facts_text(None, 1, &vec![], ""), strings(&["None", "1 day(s)", "Any expense category", "—"]));
    assert_eq!(
        constraint_facts_text(Some("500.00"), 3, &strings(&["Housing", "Travel"]), "tax-free"),
        strings(&["500.00", "3 day(s)", "Housing, Travel", "tax-free"])
    );
}

#[test]
fn strategy_note_for_each_case() {
    let caveats = strings(&["Uses the emergency fund", "Second"]);
    let violations = strings(&["Floor A breached"]);
    assert_eq!(strategy_note_text(true, true, &caveats, &violations), "Uses the emergency fund");
    assert_eq!(strategy_note_text(true, true, &vec![], &violations), "Preferred under the stated objective");
    assert_eq!(strategy_note_text(true, false, &vec![], &violations), "");
    assert_eq!(strategy_note_text(false, true, &caveats, &violations), "Floor A breached");
    assert_eq!(strategy_note_text(false, false, &caveats, &vec![]), "");
}

#[test]
fn small_readings() {
    assert_eq!(own_status_text(true), "Enabled in the household");
    assert_eq!(own_status_text(false), "Disabled in the household");
    assert_eq!(simulation_scope_text("EUR", true), "Scope: EUR · the rule is currently enabled");
    assert_eq!(simulation_scope_text("EUR", false), "Scope: EUR · the rule is currently disabled");
    assert!(visibility_note_text(true).starts_with("Only its owner sees it, in every screen."));
    assert!(visibility_note_text(false).starts_with("Every person in the household sees it."));
    assert_eq!(overlay_origin_text(true), "Explicit change");
    assert_eq!(overlay_origin_text(false), "Tagged with this scenario");
    assert_eq!(coverable_note_text(true), "Other accounts in this boundary have the headroom at that point");
    assert_eq!(coverable_note_text(false), "Not coverable from this boundary's other accounts");
    assert_eq!(visibility_fact_text(true), "Private to you");
    assert_eq!(visibility_fact_text(false), "Household");
}

#[test]
fn account_commands_follow_the_path() {
    let c = account_commands(true, None, true);
    assert!(c.forecast && c.sensitivity);
    assert_eq!(c.forecast_tip, "The forecast path with this account selected");
    assert_eq!(c.sensitivity_tip, "One-at-a-time limits for this account's path");
    let c = account_commands(false, Some(3), true);
    assert!(c.forecast);
    assert!(!c.sensitivity);
    assert_eq!(c.sensitivity_tip, "Sensitivity is available for the household and personal cash accounts");
    let c = account_commands(false, None, false);
    assert!(!c.forecast);
    assert_eq!(
        c.forecast_tip,
        "This account is not on a forecast path: it is excluded, not immediately liquid, or not a cash account"
    );
    assert!(!account_commands(true, None, false).sensitivity);
}

#[test]
fn sharing_command_tips() {
    assert_eq!(
        command_tips(true, ObjectRef { kind: ObjectKind::Account, id: 1 }, true),
        strings(&[
            "Change the policy of an object you own",
            "Give access for one purpose and period",
            "Open this object's own screen",
            "Select this object's policy",
        ])
    );
    assert_eq!(
        command_tips(false, ObjectRef { kind: ObjectKind::Goal, id: 1 }, false),
        strings(&[
            "Only an object's owner can change its policy",
            "Only an object owner can grant access",
            "This kind of object has no screen of its own",
            "This object's policy is not disclosed to you",
        ])
    );
}

#[test]
fn scenario_and_assumption_tips() {
    assert_eq!(
        selection_tips_text(0, 0),
        ("Tick at least one scenario".to_string(), "Tick two or more compatible scenarios".to_string())
    );
    assert_eq!(
        selection_tips_text(2, 0),
        ("Compare the ticked scenarios with the baseline".to_string(), "Combine the ticked scenarios into a new one".to_string())
    );
    assert_eq!(selection_tips_text(2, 1).1, "Tick two or more compatible scenarios");
    assert_eq!(recompute_tip_text(true), "Recompute for the scope chosen below");
    assert_eq!(recompute_tip_text(false), "The result below matches the scope");
}

#[test]
fn combination_facts() {
    assert_eq!(atlas_screens::decisions::shortfall_fact_text(true, "1,200.00"), "1,200.00");
    assert_eq!(atlas_screens::decisions::shortfall_fact_text(false, "0.00"), "None");
    assert_eq!(atlas_screens::decisions::best_note_text("Lowest cost"), "Best on the specified grid under “Lowest cost”.");
}

#[test]
fn outlook_assumption_listing() {
    assert_eq!(assumption_listing_of(3, false), (3, None));
    assert_eq!(assumption_listing_of(4, true), (4, None));
    assert_eq!(assumption_listing_of(7, false), (4, Some("Show all 7".to_string())));
    assert_eq!(assumption_listing_of(7, true), (7, Some("Show fewer".to_string())));
}

#[test]
fn more_single_lines() {
    assert_eq!(atlas_screens::activity::expected_through_text(day(2025, 12, 31)), "Expected · through 31 Dec 2025");
    assert_eq!(jurisdiction_line_text("DE"), "Jurisdiction DE");
    assert_eq!(projection_title_text(day(2025, 12, 31)), "Conditional projection through 31 Dec 2025");
    assert_eq!(balance_source_text(true, "Statement"), "Manual entry");
    assert_eq!(balance_source_text(false, "Statement"), "Statement (recorded history; not an import or connection)");
    assert_eq!(policy_fact_text(None), "None — excluded until an owner sets one");
    assert_eq!(policy_fact_text(Some(("Private", 2, day(2024, 3, 5)))), "Private (version 2, effective 05 Mar 2024)");
}

#[test]
fn financing_and_funding_lines() {
    assert_eq!(financing_line_text("452.10", "20,000.00", 48, 425), "452.10 of 20,000.00 over 48 months at 4.25%");
    assert_eq!(financing_line_text("400.00", "19,200.00", 48, 5), "400.00 of 19,200.00 over 48 months at 0.05%");
    assert_eq!(free_and_floor_text("3,000.00", Some("500.00")), "3,000.00 free · floor 500.00");
    assert_eq!(free_and_floor_text("3,000.00", None), "3,000.00 free · floor —");
    assert_eq!(step_balance_text("2,500.00", "500.00", ""), "2,500.00 / floor 500.00");
    assert_eq!(step_balance_text("2,500.00", "500.00", "partly"), "2,500.00 / floor 500.00 · partly");
    assert_eq!(
        remainder_description_text(true, "20,000.00", "0.00"),
        "The remainder (20,000.00) as a monthly annuity: term, nominal annual rate, first instalment and the paying account. Untick to pay the full price at once."
    );
    assert!(remainder_description_text(false, "-100.00", "0.00").starts_with("The remainder (0.00) as"));
}

#[test]
fn boundary_tab_follows_the_boundary() {
    let choices = vec![Boundary::Household, Boundary::Person(1), Boundary::Company(4)];
    assert_eq!(boundary_tab(&choices, Boundary::Company(4)), 2);
    assert_eq!(boundary_tab(&choices, Boundary::Household), 0);
    assert_eq!(boundary_tab(&choices, Boundary::Company(9)), 0);
}

#[test]
fn company_only_households() {
    assert!(!atlas_screens::today::only_company_accounts(&vec![]));
    assert!(atlas_screens::today::only_company_accounts(&vec![true, true]));
    assert!(!atlas_screens::today::only_company_accounts(&vec![true, false]));
}

#[test]
fn shown_policy_defaults_to_the_first() {
    let a = ObjectRef { kind: ObjectKind::Account, id: 1 };
    let b = ObjectRef { kind: ObjectKind::Company, id: 2 };
    let c = ObjectRef { kind: ObjectKind::Account, id: 3 };
    assert_eq!(atlas_screens::sharing::shown_policy(Some(b), &vec![a, b]), Some(b));
    assert_eq!(atlas_screens::sharing::shown_policy(Some(c), &vec![a, b]), Some(a));
    assert_eq!(atlas_screens::sharing::shown_policy(None, &vec![a, b]), Some(a));
    assert_eq!(atlas_screens::sharing::shown_policy(Some(c), &vec![]), None);
}

#[test]
fn rule_fees_and_ticked_cards() {
    assert_eq!(atlas_screens::rules::rule_fees(&vec![3, 5, 3, 7], 3), vec![0, 2]);
    assert_eq!(atlas_screens::rules::rule_fees(&vec![3, 5], 9), Vec::<usize>::new());
    assert_eq!(atlas_screens::scenarios::selected_cards(&vec![9, 6, 4], &vec![4, 6, 8]), vec![1, 0]);
    assert_eq!(atlas_screens::scenarios::selected_cards(&vec![], &vec![4]), Vec::<usize>::new());
}
