use chrono::Datelike;
use atlas_screens::access::Disclosure;
use atlas_screens::assumptions::{
    Freshness, StatementAssumption, condition_columns, statement_assumptions, DerivationTarget, SourceKind, TagTone, after_applying_text, derivation_error_text, derivation_target,
    lowest_on_text, private_note_text, review_note_text, sample_fact_text, searched_note_text,
    sensitivity_scope_text, sensitivity_summary_text, source_short_text,
};
use atlas_screens::decisions::{
    BasisAssumption, basis_assumptions, CellOutcome, Combination, DraftSource, DraftSummaryInput, metric_layout, purchase_summary, ExtractionMethod, GoalInput, GridCell, MatrixCell, combination_layout, open_goal_sheet, SourceAccount, caveats_line_text, cell_title_text, cells_keeping,
    combinations_line_text, constraints_line_text, decision_caption_text, draft_line_text, draft_scope_text,
    evaluated_through_text, filter_hides_note_text, future_tax_line_text, inputs_filled_text,
    open_result_label_text, purchase_step_description_text, recommendation_note_text, recommendation_record_text,
    reserve_condition_text, result_meta_text, route_allowed, route_choice, save_hint_text, search_space_line_text,
    source_positions, unavailable_sources,
};
use atlas_screens::forecast::{
    FloorReading, ForecastRecordInput, open_forecast_record, against_floor_text, exact_path_title_text, more_postings_text, path_caption_text,
    policy_at_version_text, posting_title_text,
};
use atlas_screens::privacy::{
    GrantRow, PolicyRow, audit_heading_text, can_revoke, grant_standing_tag, grants_heading_text,
    policies_heading_text, policy_lines_shown, viewing_caveat_text,
};

fn day(y: i32, m: u32, d: u32) -> i32 {
    chrono::NaiveDate::from_ymd_opt(y, m, d).unwrap().num_days_from_ce()
}

// ----- assumptions ------------------------------------------------------------

#[test]
fn source_short_for_each_source() {
    assert_eq!(source_short_text(&SourceKind::UserEntered), "Entered by the user");
    assert_eq!(source_short_text(&SourceKind::Derived(12)), "Derived from 12 payments");
    assert_eq!(source_short_text(&SourceKind::RulePack("DE 2025".to_string())), "Rule pack DE 2025");
    assert_eq!(source_short_text(&SourceKind::Scenario), "Created by a scenario");
}

#[test]
fn private_note_only_when_something_is_private() {
    assert_eq!(private_note_text(0), None);
    assert_eq!(private_note_text(2).as_deref(), Some("· 2 private to other people are not listed"));
}

#[test]
fn review_note_names_the_reconciliation_date() {
    let t = review_note_text(day(2025, 1, 15));
    assert!(t.starts_with("Freshness is judged on the reconciliation date, 15 Jan 2025. Accepting records a review"));
    assert!(t.ends_with("an expired one stays expired after it is accepted."));
}

#[test]
fn sample_fact_gives_size_and_span() {
    assert_eq!(sample_fact_text(6, day(2024, 7, 1), day(2024, 12, 1)), "6 payments · 01 Jul 2024 – 01 Dec 2024");
}

#[test]
fn derivation_texts() {
    assert_eq!(
        derivation_error_text("Only 4 payments"),
        "Only 4 payments — the engine reports what it has; nothing is fabricated to reach six payments."
    );
    assert_eq!(after_applying_text(None), "Nothing to apply yet");
    assert_eq!(
        after_applying_text(Some("812.00")),
        "812.00 · derived from history · acceptance cleared until reviewed"
    );
    assert_eq!(searched_note_text("0 – 5%"), "Searched 0 – 5% with everything else held at its expected value.");
    assert_eq!(lowest_on_text("Household"), "Lowest on the Household path");
}

#[test]
fn derivation_target_for_each_case() {
    assert_eq!(derivation_target(None, 1, true), DerivationTarget::Missing);
    assert_eq!(derivation_target(Some(Some(2)), 1, true), DerivationTarget::PrivateToOther);
    assert_eq!(derivation_target(Some(Some(1)), 1, true), DerivationTarget::Available { can_apply: true });
    assert_eq!(derivation_target(Some(None), 1, false), DerivationTarget::Available { can_apply: false });
}

#[test]
fn sensitivity_scope_names_the_plan() {
    assert_eq!(sensitivity_scope_text("Household", false, Some("Car")), "Household · Expected case · baseline");
    assert_eq!(sensitivity_scope_text("Household", true, None), "Household · Expected case · baseline");
    assert_eq!(
        sensitivity_scope_text("Household", true, Some("Car")),
        "Household · Expected case · with scenario “Car”"
    );
}

#[test]
fn sensitivity_summary_when_the_path_holds_and_when_it_breaches() {
    let (main, detail) = sensitivity_summary_text(false, "5,000.00", "9,000.00", "4,000.00", day(2026, 12, 31));
    assert_eq!(main, "9,000.00 lowest on the expected path − 5,000.00 hard floor = 4,000.00 one-off unplanned-spending limit");
    assert_eq!(
        detail.as_deref(),
        Some("The expected path holds the floor through 31 Dec 2026, before any assumption is moved.")
    );
    let (main, detail) = sensitivity_summary_text(true, "5,000.00", "3,000.00", "0.00", day(2026, 12, 31));
    assert_eq!(
        main,
        "The expected path already falls below the 5,000.00 floor (lowest 3,000.00). No hypothetical limit repairs that; the limits below are measured from the breached path."
    );
    assert_eq!(detail, None);
}

// ----- forecast ---------------------------------------------------------------

#[test]
fn forecast_readouts() {
    assert_eq!(against_floor_text(FloorReading::Above(100), "100.00"), "100.00 above the floor");
    assert_eq!(against_floor_text(FloorReading::Below(100), "100.00"), "100.00 below the floor");
    assert_eq!(posting_title_text(day(2025, 3, 1), 0, 3), "Selected: 01 Mar 2025 · posting 1 of 3");
    assert_eq!(exact_path_title_text("Joint"), "Joint — exact path in this run");
    assert_eq!(path_caption_text("Household · Expected", "5,000.00"), "Household · Expected · floor 5,000.00");
    assert_eq!(policy_at_version_text(7, 3), "7 at version 3");
}

#[test]
fn more_postings_after_forty() {
    assert_eq!(more_postings_text(40), None);
    assert_eq!(more_postings_text(43).as_deref(), Some("3 more postings after these."));
}

// ----- privacy ----------------------------------------------------------------

#[test]
fn privacy_headings() {
    assert!(viewing_caveat_text("Person A").starts_with("Viewing as Person A. Objects whose existence you may not learn"));
    assert_eq!(policies_heading_text(5, 2, 0), "Access policies — 5 visible to you, 2 of them yours");
    assert_eq!(
        policies_heading_text(5, 2, 3),
        "Access policies — 5 visible to you, 2 of them yours; 3 other objects are private to someone else"
    );
    assert_eq!(grants_heading_text(4), "Purpose-specific grants — 4");
    assert_eq!(audit_heading_text(12), "Privacy audit log — 12 events, newest first");
}

#[test]
fn policy_lines_only_to_owners_and_full_disclosure() {
    let row = |owned: bool, d: Disclosure| PolicyRow { policy: 0, object_name: "Joint".to_string(), owned, viewer_disclosure: d };
    assert!(policy_lines_shown(&row(true, Disclosure::BalanceOnly)));
    assert!(policy_lines_shown(&row(false, Disclosure::Full)));
    assert!(!policy_lines_shown(&row(false, Disclosure::SelectedFields)));
}

#[test]
fn grant_standing_and_revocation() {
    let t = grant_standing_tag(Some(day(2025, 2, 1)), true);
    assert_eq!(t.tone, TagTone::Warning);
    assert_eq!(t.label, "revoked from 01 Feb 2025");
    let t = grant_standing_tag(None, true);
    assert_eq!(t.tone, TagTone::Secondary);
    assert_eq!(t.label, "in effect today");
    assert_eq!(grant_standing_tag(None, false).label, "not in effect today");
    let row = GrantRow {
        grant: 0,
        object_name: "Joint".to_string(),
        grantee: "Person B".to_string(),
        purpose: "Mortgage".to_string(),
        owned: true,
        in_effect: true,
    };
    assert!(can_revoke(&row, None));
    assert!(!can_revoke(&row, Some(day(2025, 1, 1))));
    let other = GrantRow { owned: false, ..row };
    assert!(!can_revoke(&other, None));
}

// ----- decisions ----------------------------------------------------------------

#[test]
fn source_positions_number_the_allowed_sources() {
    assert_eq!(source_positions(4, &vec![true, false, true]), vec![Some(1), None, Some(2), Some(3)]);
    assert_eq!(source_positions(0, &vec![]), Vec::<Option<usize>>::new());
}

#[test]
fn unavailable_sources_list_ineligible_then_liabilities() {
    let acct = |name: &str, company: bool, offered: bool, hidden: bool, liability: bool| SourceAccount {
        name: name.to_string(),
        is_company_account: company,
        offered,
        hidden,
        liability,
    };
    let accounts = vec![
        acct("Card", false, true, false, true),
        acct("Pension", false, false, false, false),
        acct("Company", true, false, false, false),
        acct("Secret", false, false, true, false),
        acct("Joint", false, true, false, false),
    ];
    assert_eq!(
        unavailable_sources(&accounts),
        vec!["Pension — not eligible as a source".to_string(), "Card — a liability; it cannot fund a purchase".to_string()]
    );
}

#[test]
fn route_choice_and_allowance() {
    assert_eq!(route_choice(&vec![0, 1], 1), ExtractionMethod::Dividend);
    assert_eq!(route_choice(&vec![0, 1], 0), ExtractionMethod::Salary);
    assert_eq!(route_choice(&vec![0, 1], 5), ExtractionMethod::Salary);
    assert!(route_allowed(&vec![false, true], 1));
    assert!(!route_allowed(&vec![false, true], 0));
    assert!(!route_allowed(&vec![false, true], 2));
}

#[test]
fn builder_lines() {
    assert_eq!(
        draft_line_text("Person A"),
        "Draft for Person A · kept for this session only, not saved as a scenario or a transaction"
    );
    assert_eq!(open_result_label_text(true), "Result (out of date)");
    assert_eq!(open_result_label_text(false), "Open result");
    assert_eq!(save_hint_text(true), "Recalculate first; the inputs changed");
    assert_eq!(save_hint_text(false), "Creates “Decision: <purchase>” with its planned movements");
    assert_eq!(draft_scope_text("EUR"), "Household · EUR");
    assert_eq!(evaluated_through_text(day(2027, 6, 30)), "Evaluated through 30 Jun 2027");
    assert_eq!(
        purchase_step_description_text(day(2025, 1, 15)),
        "The price, when, and the reserve the household must keep throughout. Balances as of 15 Jan 2025."
    );
}

#[test]
fn result_meta_with_and_without_financing() {
    assert_eq!(
        result_meta_text(day(2025, 9, 1), "30,000.00", "10,000.00", None, day(2027, 12, 31)),
        "01 Sep 2025 · Price 30,000.00 · Down payment 10,000.00 · paid in full · through 31 Dec 2027"
    );
    assert_eq!(
        result_meta_text(day(2025, 9, 1), "30,000.00", "10,000.00", Some((48, "450.00")), day(2027, 12, 31)),
        "01 Sep 2025 · Price 30,000.00 · Down payment 10,000.00 · 48 payments of 450.00 · through 31 Dec 2027"
    );
}

#[test]
fn grid_readings() {
    let through = day(2026, 12, 31);
    let cells = vec![
        GridCell { purchase_on: day(2025, 1, 1), reserve_ok: true },
        GridCell { purchase_on: day(2025, 6, 1), reserve_ok: false },
        GridCell { purchase_on: day(2027, 6, 1), reserve_ok: true },
    ];
    assert_eq!(cells_keeping(&cells, through), 1);
    assert_eq!(
        combinations_line_text(3, 1, "Done."),
        "3 combinations · 1 keep the reserve · every cell is a full evaluation. Done."
    );
    assert_eq!(filter_hides_note_text(false, 2), None);
    assert_eq!(filter_hides_note_text(true, 0), None);
    assert_eq!(filter_hides_note_text(true, 2).as_deref(), Some("2 combinations hidden by the filter."));
    assert_eq!(reserve_condition_text(CellOutcome::OutsideWindow, ""), "Outside the evaluated window — not proven affordable");
    assert_eq!(reserve_condition_text(CellOutcome::KeepsReserve, ""), "Kept under the conservative case");
    assert_eq!(reserve_condition_text(CellOutcome::BreachesReserve, "1,200.00"), "Breached by 1,200.00");
    assert_eq!(cell_title_text(day(2025, 6, 1), "5,000.00"), "Selected: 01 Jun 2025 · 5,000.00 down");
}

#[test]
fn strategy_lines() {
    assert_eq!(constraints_line_text(&vec![]), "Reserve constraints: satisfied");
    assert_eq!(
        constraints_line_text(&vec!["floor A".to_string(), "floor B".to_string()]),
        "Reserve constraints: floor A; floor B"
    );
    assert_eq!(caveats_line_text(&vec![]), None);
    assert_eq!(
        caveats_line_text(&vec!["One.".to_string(), "Two.".to_string()]).as_deref(),
        Some("Caveats: One. Two.")
    );
    assert_eq!(future_tax_line_text("300.00", "dividend tax"), "Future incremental tax 300.00 — dividend tax");
    assert_eq!(
        search_space_line_text("3 sources × 2 routes", "Lowest cost"),
        "Search space: 3 sources × 2 routes. Objective: Lowest cost. Best among the tested strategies, not a global optimum."
    );
}

#[test]
fn recommendation_lines() {
    assert_eq!(
        recommendation_note_text("Lowest cost", 12, 5, day(2027, 12, 31)),
        "Objective: Lowest cost · best among 12 tested strategies, 5 feasible — a finite search, not a global optimum. The verdict is the conservative test through 31 Dec 2027; the chart below is the expected path."
    );
    assert_eq!(
        recommendation_record_text("Lowest cost", 12, 5, "Savings first"),
        "Objective Lowest cost · 12 candidates evaluated · 5 feasible · winning strategy: Savings first"
    );
    assert_eq!(
        decision_caption_text(day(2027, 12, 31)),
        "Expected graph · the Conservative reserve test is above · through 31 Dec 2027"
    );
    assert_eq!(
        inputs_filled_text(day(2025, 9, 1), "10,000.00"),
        "Purchase date 01 Sep 2025 and down payment 10,000.00 filled in; validate the steps and recalculate."
    );
}

#[test]
fn forecast_record_lists_facts_and_collections() {
    let input = ForecastRecordInput {
        algorithm: "chronological-v1".to_string(),
        boundary: "Household".to_string(),
        case_label: "Expected".to_string(),
        case_description: "every amount at its expected value".to_string(),
        scenario: Some("Car".to_string()),
        as_of: day(2025, 1, 15),
        through: day(2025, 12, 31),
        assumptions_used: 4,
        assumptions_hidden: 1,
        input_hash: 0xabc,
        starting: vec![("Joint".to_string(), "5,000.00".to_string())],
        series: vec!["Rent".to_string()],
        excluded: vec![("Card".to_string(), "a liability".to_string())],
        rules: vec![],
        packs: vec!["DE 2025".to_string()],
        policies: vec![(7, 3), (9, 1)],
    };
    let r = open_forecast_record(&input);
    let facts: Vec<(String, String)> = r.facts.iter().map(|f| (f.label.clone(), f.value.clone())).collect();
    assert_eq!(facts[2], ("Case".to_string(), "Expected — every amount at its expected value".to_string()));
    assert_eq!(facts[3], ("Plan".to_string(), "with scenario “Car”".to_string()));
    assert_eq!(facts[6], ("Assumptions".to_string(), "4 used (1 not disclosed to this viewer)".to_string()));
    assert_eq!(facts[7], ("Input hash".to_string(), "0000000000000abc".to_string()));
    assert_eq!(r.collections[0].items, vec!["Joint 5,000.00".to_string()]);
    assert_eq!(r.collections[2].items, vec!["Card — a liability".to_string()]);
    assert_eq!(r.collections[5].items, vec!["7 at version 3".to_string(), "9 at version 1".to_string()]);
    assert_eq!(
        r.text,
        "Forecast record\nAlgorithm: chronological-v1\nBoundary: Household\nCase: Expected — every amount at its expected value\nPlan: with scenario “Car”\nBalances as of: 15 Jan 2025\nThrough: 31 Dec 2025\nAssumptions: 4 used (1 not disclosed to this viewer)\nInput hash: 0000000000000abc\nStarting balances: Joint 5,000.00\nIncluded series: Rent\nExcluded accounts: Card — a liability\nRules applied: none\nTax rule packs: DE 2025\nPolicy versions: 7 at version 3; 9 at version 1\n"
    );
}

#[test]
fn condition_columns_read_the_row() {
    let c = condition_columns(&vec![], None, None, Freshness::NotAccepted);
    assert_eq!(c.applies, "Every forecast");
    assert_eq!(c.accepted, "Not accepted");
    assert_eq!(c.expires, "No expiry");
    assert!(c.accept);
    let c = condition_columns(
        &vec!["Household".to_string(), "Person A".to_string()],
        Some(day(2024, 3, 5)),
        Some(day(2025, 12, 31)),
        Freshness::Fresh,
    );
    assert_eq!(c.applies, "Household, Person A");
    assert_eq!(c.accepted, "Accepted 05 Mar 2024");
    assert_eq!(c.expires, "Expires 31 Dec 2025");
    assert!(!c.accept);
    assert!(condition_columns(&vec![], None, None, Freshness::Stale).accept);
    assert!(condition_columns(&vec![], None, None, Freshness::Expired).accept);
}

#[test]
fn goal_sheet_of_a_delayed_goal() {
    let goals = vec![GoalInput {
        name: "Holiday".to_string(),
        amount: "3,000.00".to_string(),
        target_on: day(2026, 6, 1),
        baseline_reached: Some(day(2026, 5, 1)),
        decision_reached: None,
        delay_days: Some(45),
        text: "Reached 45 days later".to_string(),
    }];
    assert!(open_goal_sheet(&goals, 1, "Car").is_none());
    let sheet = open_goal_sheet(&goals, 0, "Car").unwrap();
    assert_eq!(sheet.title, "Goal: Holiday");
    assert_eq!(
        sheet.labels,
        vec!["Amount", "Target date", "Reached on the baseline", "Reached with “Car”", "Delay", "Effect"]
            .into_iter()
            .map(String::from)
            .collect::<Vec<_>>()
    );
    assert_eq!(
        sheet.values,
        vec!["3,000.00", "01 Jun 2026", "01 May 2026", "Not reached within the window", "45 days", "Reached 45 days later"]
            .into_iter()
            .map(String::from)
            .collect::<Vec<_>>()
    );
}

#[test]
fn combinations_as_a_matrix_and_as_a_list() {
    let (jan, feb) = (day(2025, 1, 1), day(2025, 2, 1));
    let c = |purchase_on: i32, down_payment: i64, reserve_ok: bool| Combination { purchase_on, down_payment, reserve_ok };
    let grid = vec![c(jan, 200000, true), c(jan, 100000, false), c(feb, 100000, true), c(jan, 300000, true)];
    let m = combination_layout(&grid, false, true);
    assert!(m.matrix);
    assert_eq!(m.dates, vec![jan, feb, jan]);
    assert_eq!(m.amounts, vec![100000, 200000, 300000]);
    assert_eq!(m.cells[0], vec![MatrixCell::HiddenByFilter, MatrixCell::Outcome(0), MatrixCell::Outcome(3)]);
    assert_eq!(m.cells[1], vec![MatrixCell::Outcome(2), MatrixCell::Missing, MatrixCell::Missing]);
    assert_eq!(m.cells[2], m.cells[0]);
    assert!(m.rows.is_empty());
    let unfiltered = combination_layout(&grid, false, false);
    assert_eq!(unfiltered.cells[0][0], MatrixCell::Outcome(1));
    let list = combination_layout(&grid, true, true);
    assert!(!list.matrix);
    assert!(list.cells.is_empty());
    assert_eq!(list.rows, vec![0, 2, 3]);
    let many: Vec<Combination> = (0..6).map(|k| c(jan, 1000 * (6 - k), k % 2 == 0)).collect();
    let wide = combination_layout(&many, false, false);
    assert!(!wide.matrix);
    assert_eq!(wide.amounts, vec![1000, 2000, 3000, 4000, 5000, 6000]);
    assert_eq!(wide.rows, vec![0, 1, 2, 3, 4, 5]);
    let empty = combination_layout(&vec![], false, false);
    assert!(!empty.matrix && empty.rows.is_empty() && empty.dates.is_empty());
}

#[test]
fn sensitivity_statement_lists_what_the_viewer_may_see() {
    let a = |private_to: Option<u64>, applies_everywhere: bool, applies_to_known_series: bool| StatementAssumption {
        private_to,
        applies_everywhere,
        applies_to_known_series,
    };
    let s = vec![a(None, true, false), a(Some(2), true, false), a(Some(1), false, true), a(None, false, false)];
    assert_eq!(statement_assumptions(&s, 1), (vec![0, 2], true));
    assert_eq!(statement_assumptions(&s, 2), (vec![0, 1], true));
    assert_eq!(statement_assumptions(&vec![a(None, true, false)], 1), (vec![0], false));
}

#[test]
fn purchase_summary_grows_with_the_steps() {
    let mut d = DraftSummaryInput {
        step: 0,
        name: String::new(),
        price_positive: false,
        price: "0.00".to_string(),
        purchase_on: day(2025, 9, 1),
        reserve: "5,000.00".to_string(),
        window_from: day(2025, 6, 1),
        window_to: day(2025, 12, 1),
        objective: "Lowest cost".to_string(),
        down_payment: "10,000.00".to_string(),
        sources: vec![
            DraftSource { name: "Joint".to_string(), allowed: true },
            DraftSource { name: "Card".to_string(), allowed: false },
        ],
        routes: vec![DraftSource { name: "Atlas GmbH".to_string(), allowed: true }],
        financing: None,
    };
    assert_eq!(purchase_summary(&d), (vec![], vec![]));
    d.name = "Car".to_string();
    d.price_positive = true;
    d.price = "30,000.00".to_string();
    let (labels, values) = purchase_summary(&d);
    assert_eq!(labels, vec!["What", "Price", "Purchase date", "Reserve to keep", "Compare months", "Objective"]);
    assert_eq!(values[2], "01 Sep 2025");
    assert_eq!(values[4], "Jun 2025 – Dec 2025");
    d.step = 3;
    let (labels, values) = purchase_summary(&d);
    assert_eq!(labels.len(), 9);
    assert_eq!(labels[7], "Funding");
    assert_eq!(values[7], "Joint, Atlas GmbH");
    assert_eq!((labels[8].as_str(), values[8].as_str()), ("Recurring", "Paid in full"));
    d.financing = Some("450.00 of 20,000.00 over 48 months at 4.25%".to_string());
    assert_eq!(purchase_summary(&d).1[8], "450.00 of 20,000.00 over 48 months at 4.25%");
}

#[test]
fn metric_layout_leads_with_the_four_headline_metrics() {
    let names: Vec<String> = vec![
        "Total financing cost",
        "Debt-to-income",
        "Immediate cash after purchase",
        "Monthly repayment",
        "Months of reserve",
    ]
    .into_iter()
    .map(String::from)
    .collect();
    assert_eq!(metric_layout(&names), (vec![2, 3, 0], vec![1, 4]));
    assert_eq!(metric_layout(&vec![]), (vec![], vec![]));
}

#[test]
fn basis_lists_the_assumptions_the_statement_names() {
    let a = |text: &str, private_to: Option<u64>| BasisAssumption { text: text.to_string(), private_to };
    let s = vec![a("Salary rises 2%", None), a("Bonus paid", Some(2)), a("Rent stays", Some(1)), a("Unrelated", None)];
    let lines = vec!["Assumes: Salary rises 2% a year".to_string(), "Rent stays flat; Bonus paid in June".to_string()];
    assert_eq!(basis_assumptions(&s, &lines, 1), (vec![0, 2], true));
    assert_eq!(basis_assumptions(&s, &lines, 2), (vec![0, 1], true));
    assert_eq!(basis_assumptions(&vec![a("Salary rises 2%", None)], &vec![], 1), (vec![], false));
}
