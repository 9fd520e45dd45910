use chrono::Datelike;
use atlas_screens::access::{ObjectKind, ObjectRef};
use atlas_screens::activity::{
    AmountTexts, NoFutureReason, RegisterBody, Tone, amount_detail_text, available_line_text, due_line_text,
    is_same_day, more_in_upcoming, movements_line_text, no_future_reason_of, occurrence_account_text,
    occurrence_subtitle_text, plan_tag, register_body_state, signed_remaining_text, tone_of, upcoming_body_state,
    window_line_text,
};
use atlas_screens::assumptions::TagTone;
use atlas_screens::decisions::{
    CellOutcome, ExtractionMethod, GridCell, Leave, PurchaseScreen, PurchaseView, StepClick, back_target, calculate_purchase,
    calculation_note_text, cancel_purchase, cell_outcome, delay_line_text, first_refused, goal_delayed,
    goal_title_text, hidden_by_filter, move_funding_source, next_line_text, opened_strategy, outcome_label_text,
    reach_text, reached_with_text, route_method, shown_step, step_click, use_combination_inputs, MergedPoint,
    prepare_decision_result,
};
use atlas_screens::extraction::{
    BracketInput, Schedule, bracket_line_text, bracket_text, brackets_scope_text, extraction_step, forward,
    row_of_schedule, schedule_of_row, schedule_source_text, year_cell_text, years_shown_of,
};
use atlas_screens::privacy::GrantRow;
use atlas_screens::rules::{
    RuleDecision, RulesView, activity_decisions, applies_under_text, apply_tie_break, can_clear_activity,
    cancel_rule_flow, conditions_line_text, create_step, decisions_for, effective_span_text, enabled_count,
    enabled_note_text, first_version_note_text, forward_label_text, no_decisions_note_text, no_difference,
    review_applies_under_text, rule_filter, scope_line_text, statement_text, status_line_text, winner_name_text,
};
use atlas_screens::scenarios::{
    Conflict, ScenarioScreen, ScenarioView, can_compose, card_meta_text, change_count_text, compatible_verdict, conflicts_alert_text,
    inspected, selection_names_text,
};
use atlas_screens::sharing::{
    Audience, AuditKind, GrantStatus, PolicyTarget, PolicyVersion, Preset, SharingView, aspect_label_value,
    audit_tone, confirm_revoke_grant, grant_status, open_policy_object, policy_preset_label, preset, status_tag,
    version_history,
};
use atlas_screens::timeline::Direction;

fn day(y: i32, m: u32, d: u32) -> i32 {
    chrono::NaiveDate::from_ymd_opt(y, m, d).unwrap().num_days_from_ce()
}

fn view() -> PurchaseView {
    PurchaseView {
        screen: PurchaseScreen::Builder,
        step: 1,
        result_stale: true,
        saved_scenario: Some(4),
        combo_selected: Some(2),
        strategy_expanded: Some(1),
        metric_expanded: Some(0),
        report_tab: 2,
        path_selected: Some(7),
        purchase_on: day(2025, 9, 1),
        down_payment: 1_000_000,
    }
}

#[test]
fn purchase_steps_move_one_at_a_time() {
    assert_eq!(shown_step(2), 2);
    assert_eq!(shown_step(9), 3);
    assert_eq!(step_click(2, 1), StepClick::Go(1));
    assert_eq!(step_click(2, 2), StepClick::Go(2));
    assert_eq!(step_click(1, 3), StepClick::Refuse);
    assert_eq!(next_line_text(0), "Next: Down payment");
    assert_eq!(next_line_text(2), "Next: Other costs");
    assert_eq!(next_line_text(3), "Next: the result");
    assert_eq!(back_target(0), None);
    assert_eq!(back_target(3), Some(2));
}

#[test]
fn calculation_stops_at_the_first_refused_step() {
    assert_eq!(first_refused(&vec![true, false, false]), Some(1));
    assert_eq!(first_refused(&vec![true, true]), None);
    let v = calculate_purchase(view(), &vec![true, true, false]);
    assert_eq!(v, PurchaseView { step: 2, ..view() });
    let v = calculate_purchase(view(), &vec![true, true, true, true]);
    assert_eq!(
        v,
        PurchaseView {
            screen: PurchaseScreen::Result,
            step: 3,
            result_stale: false,
            saved_scenario: None,
            combo_selected: None,
            strategy_expanded: None,
            metric_expanded: None,
            report_tab: 0,
            path_selected: None,
            ..view()
        }
    );
    let v = use_combination_inputs(v, day(2025, 11, 1), 500_000);
    assert_eq!((v.screen, v.step, v.result_stale), (PurchaseScreen::Builder, 0, true));
    assert_eq!((v.purchase_on, v.down_payment), (day(2025, 11, 1), 500_000));
    assert_eq!(v.report_tab, 0);
}

#[test]
fn funding_sources_swap_and_restore() {
    let mut floors = vec![10, 20, 30];
    let mut allowed = vec![true, false, true];
    move_funding_source(&mut floors, &mut allowed, 1, true);
    assert_eq!(floors, vec![20, 10, 30]);
    assert_eq!(allowed, vec![false, true, true]);
    move_funding_source(&mut floors, &mut allowed, 0, false);
    assert_eq!(floors, vec![10, 20, 30]);
    assert_eq!(allowed, vec![true, false, true]);
    move_funding_source(&mut floors, &mut allowed, 0, true);
    assert_eq!(floors, vec![10, 20, 30]);
    move_funding_source(&mut floors, &mut allowed, 2, false);
    assert_eq!(floors, vec![10, 20, 30]);
    let mut short = vec![true];
    move_funding_source(&mut floors, &mut short, 1, false);
    assert_eq!(floors, vec![10, 30, 20]);
    assert_eq!(short, vec![true]);
}

#[test]
fn leaving_the_purchase_asks_when_something_would_be_lost() {
    assert_eq!(cancel_purchase("   ", false), Leave::Go);
    assert_eq!(cancel_purchase(" Car ", false), Leave::Confirm);
    assert_eq!(cancel_purchase("", true), Leave::Confirm);
    assert_eq!(route_method(1), ExtractionMethod::Dividend);
    assert_eq!(route_method(0), ExtractionMethod::Salary);
    assert_eq!(route_method(5), ExtractionMethod::Salary);
}

#[test]
fn purchase_result_readings() {
    let through = day(2024, 12, 31);
    let cells = vec![
        GridCell { purchase_on: day(2025, 1, 1), reserve_ok: true },
        GridCell { purchase_on: day(2024, 6, 1), reserve_ok: true },
        GridCell { purchase_on: day(2024, 6, 1), reserve_ok: false },
    ];
    assert_eq!(cell_outcome(cells[0], through), CellOutcome::OutsideWindow);
    assert_eq!(cell_outcome(cells[1], through), CellOutcome::KeepsReserve);
    assert_eq!(cell_outcome(cells[2], through), CellOutcome::BreachesReserve);
    assert_eq!(outcome_label_text(CellOutcome::BreachesReserve), "Breaches reserve");
    assert_eq!(hidden_by_filter(&cells, true), 1);
    assert_eq!(hidden_by_filter(&cells, false), 0);
    assert_eq!(opened_strategy(Some(2), Some(1), 3), Some(2));
    assert_eq!(opened_strategy(None, Some(1), 3), Some(1));
    assert_eq!(opened_strategy(None, None, 3), Some(0));
    assert_eq!(opened_strategy(None, None, 0), None);
    assert_eq!(reach_text(None), "Not reached within the window");
    assert_eq!(reach_text(Some(day(2025, 2, 1))), "01 Feb 2025");
    assert!(goal_delayed(Some(3)));
    assert!(!goal_delayed(Some(0)));
    assert!(!goal_delayed(None));
}

#[test]
fn calculation_and_goal_sentences() {
    assert_eq!(
        calculation_note_text(Ok(("Car", "The plan keeps the reserve"))),
        "Calculated “Car”: keeps the reserve in the conservative case."
    );
    assert_eq!(
        calculation_note_text(Ok(("Car", "The plan breaches the reserve"))),
        "Calculated “Car”: breaches the reserve in the conservative case."
    );
    assert_eq!(calculation_note_text(Err("no account")), "The purchase could not be evaluated: no account");
    assert_eq!(goal_title_text("Umrah"), "Goal: Umrah");
    assert_eq!(reached_with_text("Car"), "Reached with “Car”");
    assert_eq!(delay_line_text(Some(45)), "45 days");
    assert_eq!(delay_line_text(Some(-3)), "-3 days");
    assert_eq!(delay_line_text(None), "None");
}

#[test]
fn rule_register_sentences() {
    assert_eq!(enabled_count(&vec![true, false, true]), 2);
    assert_eq!(enabled_note_text(2, 3), "· 2 enabled · 1 disabled but kept with their history");
    assert_eq!(scope_line_text(Some("Move"), "Account Savings", 3), "Only under scenario “Move”");
    assert_eq!(scope_line_text(None, "Account Savings", 3), "Account Savings · specificity 3");
    assert_eq!(statement_text("any posting", "every account", "add 1% fee"), "When any posting in every account: add 1% fee");
    assert_eq!(effective_span_text(day(2024, 1, 1), None), "01 Jan 2024 – open");
    assert_eq!(effective_span_text(day(2024, 1, 1), Some(day(2024, 6, 30))), "01 Jan 2024 – 30 Jun 2024");
    assert_eq!(conditions_line_text(&Vec::new()), "No additional conditions");
    assert_eq!(conditions_line_text(&vec!["a".to_string(), "b".to_string()]), "a and b");
    assert_eq!(applies_under_text(Some("Move")), "Scenario “Move” only");
    assert_eq!(applies_under_text(None), "The baseline and every scenario");
    assert_eq!(status_line_text(true, 3), "Enabled, version 3");
    assert_eq!(status_line_text(false, 1), "Disabled, version 1");
    assert_eq!(first_version_note_text(1), "Version 1 is the first; nothing has changed it yet.");
}

fn decisions() -> Vec<RuleDecision> {
    vec![
        RuleDecision { candidates: vec![1], chosen: Some(1) },
        RuleDecision { candidates: vec![1, 2], chosen: Some(2) },
        RuleDecision { candidates: vec![2, 3], chosen: None },
    ]
}

#[test]
fn rule_decisions_listed_by_filter() {
    let ds = decisions();
    assert_eq!(decisions_for(&ds, 1), vec![0, 1]);
    assert_eq!(decisions_for(&ds, 4), Vec::<usize>::new());
    assert_eq!(activity_decisions(&ds, false, None), vec![0, 1, 2]);
    assert_eq!(activity_decisions(&ds, true, None), vec![1, 2]);
    assert_eq!(activity_decisions(&ds, true, Some(3)), vec![2]);
    let rules = vec![1, 2, 3];
    assert_eq!(rule_filter(0, &rules), None);
    assert_eq!(rule_filter(2, &rules), Some(2));
    assert_eq!(rule_filter(4, &rules), None);
    let names = vec!["Fee".to_string(), "Prefer savings".to_string()];
    assert_eq!(winner_name_text(Some(2), &vec![1, 2], &names), "Prefer savings");
    assert_eq!(winner_name_text(Some(9), &vec![1, 2], &names), "None applied");
    assert_eq!(winner_name_text(None, &vec![1, 2], &names), "None applied");
    assert_eq!(no_decisions_note_text(true), "No decision in this window had competing candidates.");
    assert_eq!(no_decisions_note_text(false), "No rule applied to any occurrence in this window.");
    assert!(no_difference(0, 0));
    assert!(!no_difference(0, -5));
}

#[test]
fn rule_screen_state() {
    let mut v = RulesView { selected_rule: None, rule_tab: 0, decision_expanded: None, activity_tab: 1, conflicts_only: true, rule_filter_row: 2 };
    v.select_rule(5);
    assert_eq!(v.selected_rule, Some(5));
    assert_eq!(v.open_rule_simulation(6), 6);
    assert_eq!((v.selected_rule, v.rule_tab), (Some(6), 2));
    v.toggle_decision(3);
    assert_eq!(v.decision_expanded, Some(3));
    v.toggle_decision(3);
    assert_eq!(v.decision_expanded, None);
    v.toggle_decision(1);
    v.set_activity_tab(0);
    assert_eq!((v.activity_tab, v.decision_expanded), (0, None));
    v.toggle_decision(1);
    v.set_conflicts_only(false);
    assert_eq!((v.conflicts_only, v.decision_expanded), (false, None));
    assert!(can_clear_activity(&v, Some(2)));
    assert!(!can_clear_activity(&v, None));
    v.conflicts_only = true;
    v.clear_activity_filters();
    assert_eq!((v.conflicts_only, v.rule_filter_row, v.decision_expanded), (false, 0, None));
    assert_eq!(v.selected_rule, Some(6));
}

#[test]
fn create_rule_flow_and_tie_break() {
    assert_eq!(cancel_rule_flow("  ", 0), Leave::Go);
    assert_eq!(cancel_rule_flow("\u{a0}\t\u{3000}\n", 0), Leave::Go);
    assert_eq!(cancel_rule_flow("\u{200b}", 0), Leave::Confirm);
    assert_eq!(cancel_rule_flow("Fee", 0), Leave::Confirm);
    assert_eq!(cancel_rule_flow("", 1), Leave::Confirm);
    assert_eq!(create_step(7), 3);
    assert_eq!(forward_label_text(2), "Next");
    assert_eq!(forward_label_text(3), "Create rule");
    assert_eq!(review_applies_under_text(6), "That scenario's plan only");
    assert_eq!(review_applies_under_text(2), "The baseline and every scenario");
    let mut current = 0u8;
    let note = apply_tie_break(&mut current, 1, "Newest version wins");
    assert_eq!(current, 1);
    assert_eq!(note, Some("Tie-break is now “Newest version wins”; rule decisions recomputed.".to_string()));
    assert_eq!(apply_tie_break(&mut current, 1, "Newest version wins"), None);
    assert_eq!(current, 1);
}

#[test]
fn extraction_schedule_lines() {
    let brackets = vec![
        BracketInput { rate_basis_points: 1000, lower: "0".to_string(), upper: Some("100,000".to_string()) },
        BracketInput { rate_basis_points: 3050, lower: "100,000".to_string(), upper: None },
    ];
    assert_eq!(bracket_text(&brackets[1]), "30% above 100,000");
    assert_eq!(bracket_line_text(&brackets), "10% 0–100,000, 30% above 100,000");
    assert_eq!(brackets_scope_text(&brackets), "Brackets 10% 0–100,000, 30% above 100,000");
    assert_eq!(brackets_scope_text(&Vec::new()), "Brackets none effective");
    assert_eq!(schedule_source_text(Schedule::PlanExample, &vec!["X".to_string()]), "Example schedule, fictitious");
    assert_eq!(
        schedule_source_text(Schedule::HouseholdPack, &vec!["DEMO".to_string(), "Mine".to_string()]),
        "This household's packs: DEMO, Mine"
    );
    assert_eq!(schedule_of_row(1), Schedule::HouseholdPack);
    assert_eq!(schedule_of_row(0), Schedule::PlanExample);
    assert_eq!(row_of_schedule(Schedule::HouseholdPack), 1);
}

#[test]
fn extraction_steps() {
    assert_eq!(extraction_step(5), 3);
    assert_eq!(forward(0), ("Next".to_string(), 1));
    assert_eq!(forward(2), ("Compare taxes".to_string(), 3));
    assert_eq!(forward(3), ("Change inputs".to_string(), 0));
    assert_eq!(years_shown_of(None), 2);
    assert_eq!(years_shown_of(Some(1)), 1);
    assert_eq!(years_shown_of(Some(5)), 2);
    assert_eq!(year_cell_text(Some("60,000"), Some("6,000")), "60,000 / 6,000");
    assert_eq!(year_cell_text(None, None), " / ");
}

#[test]
fn scenario_verdicts() {
    assert_eq!(change_count_text(1), "1 change");
    assert_eq!(change_count_text(3), "3 changes");
    assert_eq!(card_meta_text(2, true), "2 changes · Private to its owner");
    assert_eq!(card_meta_text(1, false), "1 change · Shared");
    assert!(can_compose(2, 0));
    assert!(!can_compose(1, 0));
    assert!(!can_compose(3, 1));
    assert_eq!(compatible_verdict(0).0, "Nothing selected for comparison");
    assert_eq!(compatible_verdict(1).1, "Tick another to check compatibility and compose.");
    assert_eq!(compatible_verdict(3).0, "3 selected and compatible");
    let cs = vec![Conflict { first: "Car".to_string(), second: "Move".to_string(), reason: "both change Salary".to_string() }];
    assert_eq!(
        conflicts_alert_text(&cs),
        "Car × Move: both change Salary. A comparison can still run in the order selected; composing cannot."
    );
    assert_eq!(selection_names_text(&Vec::new()), "no scenario selected");
    assert_eq!(selection_names_text(&vec!["Car".to_string(), "Move".to_string()]), "Car + Move");
}

#[test]
fn scenario_detail_and_selection() {
    assert_eq!(inspected(Some(3), &vec![1, 3]), Some(3));
    assert_eq!(inspected(Some(4), &vec![1, 3]), Some(1));
    assert_eq!(inspected(None, &Vec::new()), None);
    let mut v = ScenarioView { selection: vec![1, 2], detail: None, case: 1, screen: ScenarioScreen::List, stale: false };
    v.inspect_scenario(2);
    assert_eq!((v.selection.clone(), v.detail), (vec![1, 2], Some(2)));
    v.compare_only(5);
    assert_eq!((v.selection.clone(), v.detail), (vec![5], Some(5)));
    assert_eq!((v.screen, v.stale), (ScenarioScreen::Comparison, true));
    v.set_comparison_case(2);
    assert_eq!(v.case, 2);
    assert_eq!(v.selection, vec![5]);
    v.open_scenario_detail(7);
    assert_eq!((v.selection.clone(), v.detail, v.case), (vec![5], Some(7), 2));
    assert_eq!(v.screen, ScenarioScreen::List);
}

#[test]
fn sharing_readings() {
    let as_of = day(2024, 3, 1);
    assert_eq!(grant_status(Some(day(2024, 1, 1)), true, day(2023, 1, 1), as_of), GrantStatus::Revoked(day(2024, 1, 1)));
    assert_eq!(grant_status(None, true, day(2023, 1, 1), as_of), GrantStatus::InEffect);
    assert_eq!(grant_status(None, false, day(2024, 5, 1), as_of), GrantStatus::Future);
    assert_eq!(grant_status(None, false, day(2023, 5, 1), as_of), GrantStatus::Expired);
    let t = status_tag(GrantStatus::Revoked(day(2024, 1, 1)));
    assert_eq!((t.tone, t.label.as_str()), (TagTone::Danger, "Revoked from 01 Jan 2024"));
    let t = status_tag(GrantStatus::Future);
    assert_eq!((t.tone, t.label.as_str()), (TagTone::Info, "Future"));
    assert_eq!(preset(Audience::Household, Audience::Household, Audience::Household), Preset::FullyShared);
    assert_eq!(preset(Audience::OwnersOnly, Audience::Household, Audience::Household), Preset::Private);
    assert_eq!(preset(Audience::Persons, Audience::Persons, Audience::OwnersOnly), Preset::SharedBalance);
    assert_eq!(preset(Audience::Household, Audience::OwnersOnly, Audience::OwnersOnly), Preset::SharedSummary);
    assert_eq!(preset(Audience::Other, Audience::OwnersOnly, Audience::OwnersOnly), Preset::Custom);
    assert_eq!(policy_preset_label(Audience::OwnersOnly, Audience::OwnersOnly, Audience::OwnersOnly), "Private");
    assert_eq!(policy_preset_label(Audience::Household, Audience::Household, Audience::Household), "Fully shared");
    assert_eq!(audit_tone(AuditKind::AccessDenied), TagTone::Danger);
    assert_eq!(audit_tone(AuditKind::GrantRevoked), TagTone::Warning);
    assert_eq!(audit_tone(AuditKind::Other), TagTone::Secondary);
    assert_eq!(open_policy_object(ObjectRef { kind: ObjectKind::Scenario, id: 4 }), Some(PolicyTarget::Scenario(4)));
    assert_eq!(open_policy_object(ObjectRef { kind: ObjectKind::Goal, id: 4 }), None);
    assert_eq!(aspect_label_value("Balance: Owners only"), ("Balance".to_string(), "Owners only".to_string()));
    assert_eq!(aspect_label_value("a: b: c"), ("a".to_string(), "b: c".to_string()));
    assert_eq!(aspect_label_value("No separator"), ("No separator".to_string(), String::new()));
}

#[test]
fn sharing_selection() {
    let mut v = SharingView { selected_policy: None, selected_grant: Some(1) };
    let o = ObjectRef { kind: ObjectKind::Account, id: 3 };
    v.select_policy_row(o);
    assert_eq!(v.selected_policy, Some(o));
    assert_eq!(v.selected_grant, Some(1));
    v.select_grant(4);
    assert_eq!(v.selected_grant, Some(4));
}

#[test]
fn revoking_a_grant_names_it() {
    let rows = vec![GrantRow {
        grant: 7,
        object_name: "Account: Savings".to_string(),
        grantee: "Accountant".to_string(),
        purpose: "Tax return".to_string(),
        owned: true,
        in_effect: true,
    }];
    let lines = confirm_revoke_grant(&rows, 7, day(2024, 3, 5)).unwrap();
    assert_eq!(
        lines,
        vec![
            "Account: Savings — Tax return",
            "Grantee: Accountant",
            "Revoked from the reconciliation date, 05 Mar 2024.",
            "The grant is kept with its revocation date; calculations made while it applied keep their context.",
        ]
    );
    assert_eq!(confirm_revoke_grant(&rows, 8, day(2024, 3, 5)), None);
}

#[test]
fn policy_history_oldest_to_current() {
    let v = |version: u64, preset: &str| PolicyVersion {
        version,
        preset: preset.to_string(),
        effective_from: day(2024, 1, version as u32),
        changed_by: "Ayesha".to_string(),
        changed_day: day(2024, 1, version as u32),
        changed_minute: 9 * 60 + 5,
    };
    let previous = vec![v(2, "Shared"), v(1, "Private")];
    let (order, rows) = version_history(&previous, &v(3, "Household"));
    assert_eq!(order, vec![1, 0, 2]);
    assert_eq!(rows[0].version, "v1");
    assert_eq!(rows[2].version, "v3 · current");
    assert_eq!(rows[1].preset, "Shared");
    assert_eq!(rows[0].effective, "01 Jan 2024");
    assert_eq!(rows[2].changed, "Ayesha · 03 Jan 2024 09:05");
}

#[test]
fn activity_readings() {
    assert_eq!(signed_remaining_text(Direction::Income, "500"), "+500");
    assert_eq!(signed_remaining_text(Direction::Expense, "500"), "−500");
    assert_eq!(signed_remaining_text(Direction::Transfer(3), "500"), "→ 500");
    assert_eq!(occurrence_account_text(Direction::Transfer(3), "Current", Some("Savings"), None), "Current → Savings");
    assert_eq!(occurrence_account_text(Direction::Transfer(3), "Current", None, None), "Current → ?");
    assert_eq!(occurrence_account_text(Direction::Expense, "Current", None, Some("Card")), "Current ⇄ Card");
    assert_eq!(tone_of(Direction::Income, true), Tone::Success);
    assert_eq!(tone_of(Direction::Income, false), Tone::Muted);
    assert_eq!(tone_of(Direction::Expense, true), Tone::Foreground);
    let a = AmountTexts {
        fulfilled_positive: true,
        fulfilled: "200".to_string(),
        expected: "500".to_string(),
        ranged: true,
        low: "400".to_string(),
        high: "600".to_string(),
    };
    assert_eq!(amount_detail_text(&a), Some("200 of 500 received".to_string()));
    let a = AmountTexts { fulfilled_positive: false, ..a };
    assert_eq!(amount_detail_text(&a), Some("400–600".to_string()));
    let a = AmountTexts { ranged: false, ..a };
    assert_eq!(amount_detail_text(&a), None);
    assert_eq!(movements_line_text(5, 5, 3), "5 movements · 3 live");
    assert_eq!(movements_line_text(2, 5, 1), "2 of 5 movements match the filters · 1 live");
    let t = plan_tag(Some("Move"));
    assert_eq!((t.tone, t.label.as_str()), (TagTone::Info, "With Move"));
    let t = plan_tag(None);
    assert_eq!((t.tone, t.label.as_str()), (TagTone::Secondary, "Baseline"));
}

#[test]
fn register_bodies() {
    assert_eq!(register_body_state(0, 0, 0), RegisterBody::Empty);
    assert_eq!(register_body_state(3, 0, 0), RegisterBody::NoneDisclosed);
    assert_eq!(register_body_state(3, 2, 0), RegisterBody::NoMatch);
    assert_eq!(register_body_state(3, 2, 1), RegisterBody::Rows);
    assert_eq!(upcoming_body_state(1, 0, 0, 0, 0), RegisterBody::Rows);
    assert_eq!(upcoming_body_state(0, 0, 0, 0, 0), RegisterBody::Empty);
    assert_eq!(upcoming_body_state(0, 0, 2, 2, 0), RegisterBody::NoneDisclosed);
    assert_eq!(upcoming_body_state(0, 4, 2, 0, 2), RegisterBody::NoMatch);
    assert_eq!(more_in_upcoming(10), Some(2));
    assert_eq!(more_in_upcoming(8), None);
}

#[test]
fn series_dates() {
    let as_of = day(2024, 3, 1);
    assert_eq!(no_future_reason_of(Some(day(2024, 2, 1)), as_of, "One time"), NoFutureReason::OneTimeBeforeReconciliation);
    assert_eq!(no_future_reason_of(None, as_of, "Monthly until 01 Jan 2024"), NoFutureReason::EndsBeforeWindow);
    assert_eq!(no_future_reason_of(None, as_of, "Monthly"), NoFutureReason::NothingInWindow);
    assert!(is_same_day(5, 5, 5));
    assert!(!is_same_day(5, 6, 5));
    assert_eq!(due_line_text(day(2024, 3, 5), day(2024, 3, 5)), "05 Mar 2024");
    assert_eq!(due_line_text(day(2024, 3, 7), day(2024, 3, 5)), "07 Mar 2024 · originally 05 Mar 2024");
    assert_eq!(available_line_text(day(2024, 3, 5), true), "05 Mar 2024 · same day");
    assert_eq!(available_line_text(day(2024, 3, 5), false), "05 Mar 2024");
    assert_eq!(
        occurrence_subtitle_text("Ayesha", day(2024, 3, 7), day(2024, 3, 5), Some("Move"), true),
        "Ayesha · moved from 05 Mar 24 · scenario “Move” · linked movement"
    );
    assert_eq!(occurrence_subtitle_text("Ayesha", day(2024, 3, 5), day(2024, 3, 5), None, false), "Ayesha");
}

#[test]
fn decision_values_table() {
    let points = vec![
        MergedPoint { day: day(2024, 3, 5), baseline: 1000, with_purchase: 400 },
        MergedPoint { day: day(2024, 3, 6), baseline: -5, with_purchase: 10 },
    ];
    let rows = prepare_decision_result(&points);
    assert_eq!(rows.len(), 2);
    assert_eq!(rows[0].date, "05 Mar 2024");
    assert_eq!((rows[0].baseline, rows[0].with_purchase, rows[0].difference), (1000, 400, -600));
    assert_eq!(rows[1].difference, 15);
    assert!(prepare_decision_result(&Vec::new()).is_empty());
}

#[test]
fn upcoming_window_line() {
    assert_eq!(
        window_line_text(day(2024, 3, 1), day(2024, 5, 31), None),
        "· Expected values from 01 Mar 2024 through 31 May 2024, baseline only · the window is local to Upcoming and recorded transactions are unaffected"
    );
    assert!(window_line_text(day(2024, 3, 1), day(2024, 5, 31), Some("Move")).contains("baseline plus scenario “Move”"));
}
