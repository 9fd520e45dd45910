use chrono::Datelike;
use atlas_screens::activity::{
    series_register, OccurrenceKey, live_count, selected_occurrence, upcoming_filtering, AssumptionScope, series_assumptions, series_preview, ExceptionKind, NoFutureReason, also_posts_text, category_fact_text, direction_fact_text, exception_effect_text,
    expected_amount_text, hidden_actuals_note_text, hidden_series_note_text, identity_note_text, lag_fact_text,
    link_due_text, linked_fact_text, matched_line_text, more_note_text, no_future_line_text, preview_due_text,
    record_label_text, scenario_fact_text, selected_title_text, series_access_text, upcoming_badge_text,
};
use atlas_screens::timeline::Direction;

fn day(y: i32, m: u32, d: u32) -> i32 {
    chrono::NaiveDate::from_ymd_opt(y, m, d).unwrap().num_days_from_ce()
}

#[test]
fn upcoming_badge_names_the_overlaid_scenario() {
    assert_eq!(upcoming_badge_text(None), "Expected · Baseline");
    assert_eq!(upcoming_badge_text(Some("Buy a car")), "Expected · With Buy a car");
}

#[test]
fn hidden_series_note_counts_the_series() {
    assert_eq!(hidden_series_note_text(2), "2 series not disclosed to this viewer; their movements are not listed.");
}

#[test]
fn direction_fact_names_a_transfer_target() {
    assert_eq!(direction_fact_text(Direction::Transfer(4), "Transfer", "Savings"), "Transfer to Savings");
    assert_eq!(direction_fact_text(Direction::Income, "Income", "Savings"), "Income");
    assert_eq!(direction_fact_text(Direction::Expense, "Expense", ""), "Expense");
}

#[test]
fn inspector_facts_read_as_written() {
    assert_eq!(linked_fact_text("Savings"), "Linked movement on Savings");
    assert_eq!(scenario_fact_text("Buy a car"), "Scenario “Buy a car”");
    assert_eq!(selected_title_text("Rent · 01 Mar 2025"), "Selected: Rent · 01 Mar 2025");
    assert_eq!(also_posts_text("Savings"), "Also posts on Savings");
    assert_eq!(lag_fact_text(3), "3 days");
    assert_eq!(lag_fact_text(0), "0 days");
}

#[test]
fn record_label_follows_the_direction() {
    assert_eq!(record_label_text(Direction::Income), "Record receipt…");
    assert_eq!(record_label_text(Direction::Expense), "Record payment…");
    assert_eq!(record_label_text(Direction::Transfer(1)), "Record payment…");
}

#[test]
fn expected_amount_adds_the_range_when_there_is_one() {
    assert_eq!(expected_amount_text("1,000.00", None, " · "), "1,000.00");
    assert_eq!(expected_amount_text("1,000.00", Some(("900.00", "1,100.00")), " · "), "1,000.00 · 900.00 – 1,100.00");
}

#[test]
fn identity_note_names_the_original_due_date() {
    assert_eq!(
        identity_note_text(day(2025, 3, 1)),
        "Exceptions and reconciliation are keyed on 01 Mar 2025, even after a move. An expected receipt is not usable before its availability date."
    );
}

#[test]
fn category_fact_reads_uncategorised_when_empty() {
    assert_eq!(category_fact_text(""), "Uncategorised");
    assert_eq!(category_fact_text("Housing"), "Housing");
}

#[test]
fn exception_effect_for_each_kind() {
    assert_eq!(exception_effect_text(&ExceptionKind::Skip), "Skipped — posts nothing");
    assert_eq!(exception_effect_text(&ExceptionKind::Cancel), "Cancelled — posts nothing");
    assert_eq!(exception_effect_text(&ExceptionKind::Move(day(2025, 4, 2))), "Moved to 02 Apr 2025");
    assert_eq!(
        exception_effect_text(&ExceptionKind::Amount("1,200.00".to_string())),
        "Amount 1,200.00 for this occurrence only"
    );
}

#[test]
fn preview_due_marks_a_moved_occurrence() {
    assert_eq!(preview_due_text(day(2025, 3, 1), day(2025, 3, 1)), "01 Mar 2025");
    assert_eq!(preview_due_text(day(2025, 3, 3), day(2025, 3, 1)), "03 Mar 2025 · moved");
}

#[test]
fn no_future_line_gives_each_reason() {
    let as_of = day(2025, 1, 15);
    let through = day(2025, 12, 31);
    assert_eq!(
        no_future_line_text(NoFutureReason::OneTimeBeforeReconciliation, "01 Jan 2025", "", as_of, through),
        "No upcoming movement. Its one occurrence on 01 Jan 2025 is before the reconciliation date."
    );
    assert_eq!(
        no_future_line_text(NoFutureReason::EndsBeforeWindow, "", "monthly until Dec 2024", as_of, through),
        "No upcoming movement. The series ends before the window: monthly until Dec 2024."
    );
    assert_eq!(
        no_future_line_text(NoFutureReason::NothingInWindow, "", "", as_of, through),
        "No upcoming movement. No occurrence falls between 15 Jan 2025 and 31 Dec 2025."
    );
}

#[test]
fn more_note_counts_what_was_left_out() {
    assert_eq!(more_note_text(7), "7 more in Upcoming.");
}

#[test]
fn matched_line_names_the_transaction() {
    let due = day(2025, 2, 1);
    assert_eq!(
        matched_line_text(due, "850.00", Some((day(2025, 2, 3), "Rent Feb"))),
        "Due 01 Feb 2025 — 850.00 matched to the transaction of 03 Feb 2025 “Rent Feb”"
    );
    assert_eq!(
        matched_line_text(due, "850.00", Some((day(2025, 2, 3), ""))),
        "Due 01 Feb 2025 — 850.00 matched to the transaction of 03 Feb 2025"
    );
    assert_eq!(matched_line_text(due, "850.00", None), "Due 01 Feb 2025 — 850.00 matched to the transaction of ");
}

#[test]
fn series_access_names_the_account() {
    assert_eq!(
        series_access_text("Joint"),
        "Whoever can see Joint can see this series and its occurrences. A series carries no policy of its own."
    );
}

#[test]
fn hidden_actuals_note_only_beside_visible_ones() {
    assert_eq!(hidden_actuals_note_text(0, 4), None);
    assert_eq!(hidden_actuals_note_text(3, 0), None);
    assert_eq!(
        hidden_actuals_note_text(3, 4).as_deref(),
        Some("3 transactions on accounts not disclosed to this viewer are not listed.")
    );
}

#[test]
fn link_due_adds_where_it_moved() {
    assert_eq!(link_due_text(day(2025, 5, 1), None), "due 01 May 2025");
    assert_eq!(link_due_text(day(2025, 5, 1), Some(day(2025, 5, 2))), "due 01 May 2025 (now 02 May 2025)");
}

#[test]
fn series_preview_takes_the_first_eight() {
    let series_of: Vec<u64> = (0..20).map(|i| if i % 2 == 0 { 7 } else { 3 }).collect();
    let (preview, total) = series_preview(&series_of, 7);
    assert_eq!(total, 10);
    assert_eq!(preview, vec![0, 2, 4, 6, 8, 10, 12, 14]);
    let (preview, total) = series_preview(&vec![3, 7, 3], 7);
    assert_eq!((preview, total), (vec![1], 1));
    assert_eq!(series_preview(&vec![3, 3], 7), (vec![], 0));
}

#[test]
fn series_assumptions_skip_other_peoples_private_ones() {
    let scopes = vec![
        AssumptionScope { applies_to: vec![1, 7], private_to: None },
        AssumptionScope { applies_to: vec![7], private_to: Some(2) },
        AssumptionScope { applies_to: vec![7], private_to: Some(1) },
        AssumptionScope { applies_to: vec![8], private_to: None },
    ];
    assert_eq!(series_assumptions(&scopes, 7, 1), vec![0, 2]);
    assert_eq!(series_assumptions(&scopes, 7, 2), vec![0, 1]);
    assert_eq!(series_assumptions(&scopes, 9, 1), Vec::<usize>::new());
}

#[test]
fn upcoming_register_state() {
    let k = |series: u64, original_due: i32| OccurrenceKey { series, original_due };
    let keys = vec![k(1, 10), k(2, 10), k(1, 20), k(2, 10)];
    assert_eq!(selected_occurrence(&keys, None), None);
    assert_eq!(selected_occurrence(&keys, Some(k(2, 10))), Some(1));
    assert_eq!(selected_occurrence(&keys, Some(k(3, 10))), None);
    assert!(!upcoming_filtering(&vec![0, 0, 0, 0, 0], false));
    assert!(upcoming_filtering(&vec![0, 0, 2, 0, 0], false));
    assert!(upcoming_filtering(&vec![0, 0, 0, 0, 0], true));
    assert_eq!(live_count(&vec![true, false, true, true]), 3);
    assert_eq!(live_count(&vec![]), 0);
}

#[test]
fn series_register_search() {
    let names: Vec<String> = vec!["Rent".to_string(), "Salary A".to_string(), "Car loan".to_string(), "PARKING".to_string()];
    assert_eq!(series_register(&names, ""), (vec![0, 1, 2, 3], false));
    assert_eq!(series_register(&names, "   "), (vec![0, 1, 2, 3], false));
    assert_eq!(series_register(&names, " AR "), (vec![1, 2, 3], true));
    assert_eq!(series_register(&names, "xyz"), (vec![], true));
}
