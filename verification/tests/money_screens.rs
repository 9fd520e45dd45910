use chrono::Datelike;
use atlas_screens::access::Disclosure;
use atlas_screens::assumptions::TagTone;
use atlas_screens::earmarks::{
    Coverage, add_earmark_hint_text, coverage_detail_text, coverage_text, dated_amount_text, days_line_text,
    earmark_status_text, empty_tab_note_text, first_breach_line_text, short_status_text, spendable_note_text,
    tab_earmarks,
};
use atlas_screens::entities::{
    HeldAccount, companies_empty_hint_text, company_roles_text, earmarks_cell_text, holdings_empty_note_text,
    income_series, kind_cell_text, liabilities, more_hidden_note_text, owner_entry_text, person_companies,
    person_tax_note_text, share_cell_text, shown_selection,
};
use atlas_screens::forecast::{
    FloorReading, PathPoint, RecordCollection, RecordFact, account_status, assumptions_used_text,
    collection_heading_text, first_breach_point, floor_reading, lowest_label_text, lowest_point, open_transfer_plan,
    plan_fact_text, record_text, recovery_suffix_text, share_suffix_text, tick_margin,
};
use atlas_screens::household::{
    HouseholdOverview, OverviewAmounts, OverviewAssumption, Ownership, acceptance_text, entries_cell_text, holding_text,
    listed_accounts, occurrences_note_text, overview_line_text, owned_percent, owner_line_text, unlisted_note_text,
    visible_note_text,
};
use atlas_screens::liquidity::{
    AccountAccess, Boundary, BoundaryReport, CompanyAccess, LiquidityModel, ReservationAccess, arrange_figures,
    boundary_choices, boundary_reservations, editable_accounts, leading_figure_index, resolve_boundary,
    spendable_and_deficit,
};
use atlas_screens::projections::{
    BoundaryForecast, PathStep, ProjectionModel, account_lowest_text, assumptions_listed_text, figures_title_text, input_hash_text,
    lowest_when_text, numbered_text, or_none_text, policy_versions_text, scenario_overrides_text, transfer_point_text,
};

fn day(y: i32, m: u32, d: u32) -> i32 {
    chrono::NaiveDate::from_ymd_opt(y, m, d).unwrap().num_days_from_ce()
}

fn companies() -> Vec<CompanyAccess> {
    vec![
        CompanyAccess { id: 10, disclosure: Disclosure::Full },
        CompanyAccess { id: 11, disclosure: Disclosure::BalanceOnly },
        CompanyAccess { id: 12, disclosure: Disclosure::SelectedFields },
    ]
}

#[test]
fn boundaries_offered_and_resolved() {
    let choices = boundary_choices(&vec![1, 2], &companies());
    assert_eq!(
        choices,
        vec![Boundary::Household, Boundary::Person(1), Boundary::Person(2), Boundary::Company(10), Boundary::Company(12)]
    );
    assert_eq!(resolve_boundary(&choices, Boundary::Person(2)), Boundary::Person(2));
    assert_eq!(resolve_boundary(&choices, Boundary::Company(11)), Boundary::Household);
    assert_eq!(resolve_boundary(&choices, Boundary::Account(3)), Boundary::Household);
}

#[test]
fn spendable_never_hides_the_deficit() {
    assert_eq!(spendable_and_deficit(1500), (1500, 0));
    assert_eq!(spendable_and_deficit(0), (0, 0));
    assert_eq!(spendable_and_deficit(-250), (0, 250));
    assert_eq!(spendable_and_deficit(i64::MIN), (0, 9223372036854775808));
    for h in [-7i64, 0, 9] {
        let (s, d) = spendable_and_deficit(h);
        assert_eq!(s as i128 - d as i128, h as i128);
        assert!(s == 0 || d == 0);
    }
}

#[test]
fn liquidity_model_for_a_boundary() {
    let report = BoundaryReport { boundary: Boundary::Household, headroom: -400, accounts: vec![5, 6] };
    let reservations = vec![
        ReservationAccess { id: 1, account: 5, disclosure: Disclosure::Full },
        ReservationAccess { id: 2, account: 7, disclosure: Disclosure::Full },
        ReservationAccess { id: 3, account: 6, disclosure: Disclosure::Hidden },
        ReservationAccess { id: 4, account: 6, disclosure: Disclosure::BalanceOnly },
    ];
    let m = LiquidityModel::compute(&vec![1], &companies(), Boundary::Company(11), &report, &reservations, 740000);
    assert_eq!(m.boundary, Boundary::Household);
    assert!(m.runway && m.minimum_injection);
    assert_eq!(m.horizon, 740000);
    assert_eq!(m.spendable_display, 0);
    assert_eq!(m.deficit, 400);
    assert_eq!(m.reservations, vec![1, 4]);
    let report = BoundaryReport { boundary: Boundary::Person(1), ..report };
    let m = LiquidityModel::compute(&vec![1], &companies(), Boundary::Person(1), &report, &reservations, 740000);
    assert_eq!(m.boundary, Boundary::Person(1));
    assert!(!m.runway && !m.minimum_injection);
    assert_eq!(boundary_reservations(&reservations, &vec![7]), vec![2]);
}

#[test]
fn only_fully_disclosed_accounts_take_earmarks() {
    let accounts = vec![
        AccountAccess { id: 1, is_company_account: false, disclosure: Disclosure::Full },
        AccountAccess { id: 2, is_company_account: false, disclosure: Disclosure::SelectedFields },
        AccountAccess { id: 3, is_company_account: true, disclosure: Disclosure::Full },
    ];
    assert_eq!(editable_accounts(&accounts), vec![1]);
}

#[test]
fn leading_figure_and_bands() {
    assert_eq!(leading_figure_index(Boundary::Household, 6), 2);
    assert_eq!(leading_figure_index(Boundary::Person(1), 6), 3);
    assert_eq!(leading_figure_index(Boundary::Person(1), 2), 1);
    assert_eq!(leading_figure_index(Boundary::Household, 0), 0);
    assert_eq!(arrange_figures(6, 2), (vec![2, 0, 1], vec![3, 4, 5]));
    assert_eq!(arrange_figures(4, 2), (vec![2, 0, 1, 3], vec![]));
    assert_eq!(arrange_figures(0, 0), (vec![], vec![]));
}

#[test]
fn earmark_readings() {
    assert_eq!(coverage_text(&Coverage::Disjoint), "Separate amount");
    assert_eq!(coverage_detail_text(&Coverage::Disjoint), "Disjoint — additive");
    assert_eq!(coverage_text(&Coverage::CoversAccountMinimum), "Includes the bank minimum");
    let nested = Coverage::NestedIn { outer: 12, outer_name: Some("School fees".to_string()) };
    assert_eq!(coverage_text(&nested), "Inside School fees");
    assert_eq!(coverage_detail_text(&nested), "Nested in School fees");
    let gone = Coverage::NestedIn { outer: 12, outer_name: None };
    assert_eq!(coverage_text(&gone), "Inside 12");
    assert_eq!(earmark_status_text(None, ""), "Active");
    assert_eq!(earmark_status_text(None, "Rent"), "Rent");
    assert_eq!(earmark_status_text(Some(day(2024, 2, 9)), "Rent"), "Released 09 Feb 2024");
    assert_eq!(short_status_text(Some(day(2024, 2, 9))), "released 09 Feb");
    assert_eq!(short_status_text(None), "active");
}

#[test]
fn earmark_tabs_split_the_earmarks() {
    let released = vec![None, Some(day(2024, 1, 1)), None, Some(day(2024, 1, 2))];
    let active = tab_earmarks(&released, false);
    let done = tab_earmarks(&released, true);
    assert_eq!(active, vec![0, 2]);
    assert_eq!(done, vec![1, 3]);
    assert_eq!(active.len() + done.len(), released.len());
    assert_eq!(empty_tab_note_text(true, true), "No released earmarks.");
    assert_eq!(empty_tab_note_text(false, true), "No earmarks on the household's accounts.");
    assert_eq!(empty_tab_note_text(false, false), "No earmarks on this boundary's accounts.");
    assert_eq!(add_earmark_hint_text(0), "Earmarks need a personal account you see in full");
    assert_eq!(add_earmark_hint_text(2), "Set money aside for a purpose");
}

#[test]
fn runway_lines() {
    assert_eq!(spendable_note_text(true, "4,000"), "Shown as 0: the floor is breached by 4,000");
    assert_eq!(spendable_note_text(false, "0"), "No deficit against the hard floor");
    assert_eq!(first_breach_line_text(None), "None through the horizon");
    assert_eq!(first_breach_line_text(Some(day(2024, 4, 30))), "30 Apr 2024");
    assert_eq!(dated_amount_text("-1,200", Some(day(2024, 4, 30)), " · "), "-1,200 · 30 Apr 2024");
    assert_eq!(dated_amount_text("-1,200", Some(day(2024, 4, 30)), " on "), "-1,200 on 30 Apr 2024");
    assert_eq!(dated_amount_text("5", None, " · "), "5");
    assert_eq!(
        days_line_text(3, "12000", "PKR"),
        "Days below the floor 3 · shortfall over time 12000 PKR-days (how long and how deep, not an amount of cash)"
    );
}

#[test]
fn household_overview_keeps_private_assumptions_out() {
    let xs = vec![
        OverviewAssumption { id: 1, private_to: None },
        OverviewAssumption { id: 2, private_to: Some(7) },
        OverviewAssumption { id: 3, private_to: Some(8) },
    ];
    let o = HouseholdOverview::compute("Ayesha".to_string(), 7, day(2024, 12, 31), amounts(), &xs, 42);
    assert_eq!(o.assumptions.iter().map(|a| a.id).collect::<Vec<_>>(), vec![1, 2]);
    assert_eq!(o.viewer_name, "Ayesha");
    assert_eq!(o.occurrence_count, 42);
    assert_eq!(
        o.money.iter().map(|f| f.id.as_str()).collect::<Vec<_>>(),
        vec!["liquid-cash", "reserved-cash", "free-cash", "total-assets", "liabilities", "net-worth"]
    );
    assert_eq!((o.money[2].label.as_str(), o.money[2].amount), ("Free current cash", 300));
    assert_eq!((o.conditional.id.as_str(), o.conditional.amount), ("conditional-cash", 700));
    assert_eq!((o.unreserved.id.as_str(), o.unreserved.label.as_str()), ("unreserved-cash", "Conditional projected unreserved cash"));
    let o = HouseholdOverview::compute("Chand".to_string(), 9, day(2024, 12, 31), amounts(), &xs, 0);
    assert_eq!(o.assumptions.iter().map(|a| a.id).collect::<Vec<_>>(), vec![1]);
}

#[test]
fn household_tables() {
    let ds = vec![Disclosure::Full, Disclosure::Hidden, Disclosure::Aggregate, Disclosure::BalanceOnly];
    let (listed, hidden) = listed_accounts(&ds);
    assert_eq!(listed, vec![0, 3]);
    assert_eq!(hidden, 2);
    assert_eq!(
        visible_note_text(2, 4, "Ayesha"),
        "2 of 4 accounts are visible to Ayesha under the current access policies; the others may still contribute to household figures as authorized aggregates."
    );
    assert_eq!(unlisted_note_text(0), None);
    assert_eq!(unlisted_note_text(2), Some("2 account(s) not listed: their existence is not disclosed to this viewer.".to_string()));
    assert_eq!(holding_text("Joint current", 5000), "Joint current (50%)");
    assert_eq!(holding_text("Joint current", 3333), "Joint current (33%)");
    assert_eq!(owner_line_text("Ayesha", 6000), "Ayesha 60%");
    let owners = vec![
        Ownership { person: 1, basis_points: 2550 },
        Ownership { person: 2, basis_points: 5000 },
        Ownership { person: 1, basis_points: 2450 },
    ];
    assert_eq!(owned_percent(&owners, 1), 50);
    assert_eq!(owned_percent(&owners, 3), 0);
    assert_eq!(entries_cell_text(&Vec::new()), "—");
    assert_eq!(entries_cell_text(&vec!["A (50%)".to_string(), "B (100%)".to_string()]), "A (50%) · B (100%)");
}

#[test]
fn household_sentences() {
    assert_eq!(
        overview_line_text("The Khans", day(2024, 3, 5), 2, 1, 5, "Ayesha"),
        "The Khans · balances reconciled 05 Mar 2024 · 2 people · 1 companies · 5 accounts · viewing as Ayesha"
    );
    assert!(occurrences_note_text(12).starts_with("12 planned occurrences entered the chain."));
    assert_eq!(acceptance_text("Employer letter", Some(day(2024, 1, 15))), "Employer letter · accepted 15 Jan 2024");
    assert_eq!(acceptance_text("Employer letter", None), "Employer letter · not yet accepted");
}

#[test]
fn person_holdings() {
    let (listed, hidden) = person_companies(&vec![Disclosure::Hidden, Disclosure::Aggregate, Disclosure::Full]);
    assert_eq!(listed, vec![1, 2]);
    assert_eq!(hidden, 1);
    let accounts = vec![
        HeldAccount { liability: true, disclosure: Disclosure::BalanceOnly },
        HeldAccount { liability: false, disclosure: Disclosure::Full },
        HeldAccount { liability: true, disclosure: Disclosure::Aggregate },
    ];
    assert_eq!(liabilities(&accounts), vec![0]);
    assert_eq!(income_series(&vec![Disclosure::Aggregate, Disclosure::BalanceOnly]), vec![1]);
    assert_eq!(holdings_empty_note_text(2, "No account yet."), "2 not disclosed to this viewer.");
    assert_eq!(holdings_empty_note_text(0, "No company."), "No company.");
    assert_eq!(more_hidden_note_text(2, 3), Some("2 more not disclosed to this viewer.".to_string()));
    assert_eq!(more_hidden_note_text(2, 0), None);
    assert_eq!(more_hidden_note_text(0, 3), None);
    assert_eq!(share_cell_text(5000), "50%");
    assert_eq!(kind_cell_text("Loan", true), "Loan · liability");
    assert_eq!(kind_cell_text("Current", false), "Current");
    let roles = vec!["Director".to_string(), "Signatory".to_string()];
    assert_eq!(company_roles_text(Disclosure::Full, &roles), "Director, Signatory");
    assert_eq!(company_roles_text(Disclosure::SelectedFields, &Vec::new()), "No company role");
    assert_eq!(company_roles_text(Disclosure::BalanceOnly, &roles), "Not disclosed");
}

#[test]
fn person_tax_and_company_details() {
    let packs = vec!["DEMO 2024".to_string()];
    assert_eq!(
        person_tax_note_text(true, "Ayesha", day(2024, 12, 31), &packs),
        "Expected baseline through the forecast end under DEMO 2024. A planning estimate, not a filing."
    );
    assert_eq!(
        person_tax_note_text(false, "Ayesha", day(2024, 12, 31), &Vec::new()),
        "No tax event attributed to Ayesha through 31 Dec 2024."
    );
    assert_eq!(owner_entry_text("Bilal", 4000), "Bilal · 40% owner");
    assert_eq!(earmarks_cell_text(&Vec::new()), "None");
    assert_eq!(earmarks_cell_text(&vec!["Payroll 9,000".to_string()]), "Payroll 9,000");
    assert_eq!(companies_empty_hint_text(0), "A company needs an owner, so add a person first.");
    assert_eq!(companies_empty_hint_text(1), "A company keeps its own ledger; its cash is never household cash.");
    assert_eq!(shown_selection(Some(3), &vec![1, 3]), Some(3));
    assert_eq!(shown_selection(Some(4), &vec![1, 3]), None);
    assert_eq!(shown_selection(None, &vec![1, 3]), None);
}

#[test]
fn forecast_path_points() {
    assert_eq!(lowest_point(&vec![5, 2, 8, 2]), Some(1));
    assert_eq!(lowest_point(&Vec::new()), None);
    let points = vec![
        PathPoint { date: day(2024, 1, 1), balance: 50 },
        PathPoint { date: day(2024, 2, 1), balance: 10 },
        PathPoint { date: day(2024, 3, 1), balance: 5 },
    ];
    assert_eq!(first_breach_point(&points, Some(day(2024, 2, 15)), 20), Some(2));
    assert_eq!(first_breach_point(&points, Some(day(2024, 1, 1)), 20), Some(1));
    assert_eq!(first_breach_point(&points, None, 20), None);
    assert_eq!(floor_reading(120, 100), FloorReading::Above(20));
    assert_eq!(floor_reading(100, 100), FloorReading::Above(0));
    assert_eq!(floor_reading(i64::MIN, i64::MAX), FloorReading::Below(u64::MAX));
    assert_eq!(tick_margin(20), 2);
    assert_eq!(tick_margin(3), 1);
}

#[test]
fn forecast_account_readings() {
    let t = account_status(Some(day(2024, 5, 2)), Some(day(2024, 4, 1)));
    assert_eq!((t.tone, t.label.as_str()), (TagTone::Danger, "Negative 02 May"));
    let t = account_status(None, Some(day(2024, 4, 1)));
    assert_eq!((t.tone, t.label.as_str()), (TagTone::Warning, "Below floor 01 Apr"));
    let t = account_status(None, None);
    assert_eq!((t.tone, t.label.as_str()), (TagTone::Secondary, "Floor held"));
    assert_eq!(share_suffix_text(5000), " · 50% share");
    assert_eq!(share_suffix_text(10000), "");
    assert_eq!(recovery_suffix_text(Some(1), Some(day(2024, 6, 3))), " · recovers 03 Jun 2024");
    assert_eq!(recovery_suffix_text(Some(1), None), " · not recovered within this window");
    assert_eq!(recovery_suffix_text(None, None), "");
    assert_eq!(lowest_label_text(Some(day(2024, 6, 3))), "Lowest · 03 Jun 2024");
    assert_eq!(lowest_label_text(None), "Lowest");
}

#[test]
fn forecast_record_as_text() {
    let facts = vec![
        RecordFact { label: "Algorithm".to_string(), value: "chronological v2".to_string() },
        RecordFact { label: "Plan".to_string(), value: plan_fact_text(None) },
    ];
    let collections = vec![
        RecordCollection { title: "Rules applied".to_string(), items: vec![] },
        RecordCollection { title: "Tax rule packs".to_string(), items: vec!["A".to_string(), "B".to_string()] },
    ];
    assert_eq!(
        record_text(&facts, &collections),
        "Forecast record\nAlgorithm: chronological v2\nPlan: baseline\nRules applied: none\nTax rule packs: A; B\n"
    );
    assert_eq!(plan_fact_text(Some("New car")), "with scenario “New car”");
    assert_eq!(assumptions_used_text(4, 1), "4 used (1 not disclosed to this viewer)");
    assert_eq!(collection_heading_text("Included series", 3), "Included series (3)");
}

#[test]
fn transfer_plan_prefill() {
    let p = open_transfer_plan(Some("Savings"), day(2024, 7, 1), 25000);
    assert_eq!(p.name, "Transfer to Savings");
    assert_eq!(p.direction_row, 2);
    assert_eq!(p.amount, 25000);
    assert_eq!(p.on, day(2024, 7, 1));
    assert_eq!(p.recurrence, "One time");
    assert_eq!(open_transfer_plan(None, 1, 1).name, "Transfer to ");
}

#[test]
fn projection_model_samples_the_path() {
    let path = vec![PathStep { day: day(2024, 3, 5), balance: 1000 }, PathStep { day: day(2024, 3, 6), balance: -20 }];
    let forecast = BoundaryForecast { boundary: Boundary::Company(12), path, floor: 50 };
    let m = ProjectionModel::compute(&vec![1], &companies(), Boundary::Company(12), &forecast);
    assert_eq!(m.boundary, Boundary::Company(12));
    assert_eq!(m.chart.len(), 2);
    assert_eq!(m.chart[0].label, "05 Mar");
    assert_eq!(m.chart[1].balance, -20);
    assert_eq!(m.chart[1].floor, 50);
    let forecast = BoundaryForecast { boundary: Boundary::Household, path: Vec::new(), floor: 0 };
    let m = ProjectionModel::compute(&vec![1], &companies(), Boundary::Person(5), &forecast);
    assert_eq!(m.boundary, Boundary::Household);
    assert!(m.chart.is_empty());
}

#[test]
fn projection_sentences() {
    assert_eq!(
        figures_title_text("Household", "Expected", "every series at its expected value", None),
        "Household — Expected case (every series at its expected value)"
    );
    assert_eq!(figures_title_text("Household", "Expected", "x", Some("Car")), "Household — Expected case, with scenario “Car”");
    assert_eq!(lowest_when_text(Some(day(2024, 8, 9))), "on 09 Aug 2024");
    assert_eq!(lowest_when_text(None), "never below the start");
    assert_eq!(account_lowest_text("-300", Some(day(2024, 8, 9))), "-300 (09 Aug)");
    assert_eq!(
        transfer_point_text(day(2024, 8, 9), "Current", "1,000", true),
        "09 Aug 2024: Current needs 1,000 to stay at its floor — other accounts of the boundary have the headroom"
    );
    assert_eq!(
        transfer_point_text(day(2024, 8, 9), "Current", "1,000", false),
        "09 Aug 2024: Current needs 1,000 to stay at its floor — not coverable from the boundary's other accounts"
    );
    assert_eq!(numbered_text(0, "Salary continues"), "1. Salary continues");
    assert_eq!(or_none_text(&Vec::new()), "none");
    assert_eq!(or_none_text(&vec!["a".to_string(), "b".to_string()]), "a · b");
    assert_eq!(policy_versions_text(&vec![3, 1]), "2 policies at versions v3, v1");
    assert_eq!(policy_versions_text(&Vec::new()), "0 policies at versions ");
    assert_eq!(scenario_overrides_text(None), "none (baseline)");
    assert_eq!(scenario_overrides_text(Some("Car")), "Car");
    assert_eq!(input_hash_text(255), "00000000000000ff");
    assert_eq!(input_hash_text(0xdead_beef_0123_4567), format!("{:016x}", 0xdead_beef_0123_4567u64));
    assert_eq!(assumptions_listed_text(3), "3 listed above");
}

fn amounts() -> OverviewAmounts {
    OverviewAmounts {
        liquid_cash: 1000,
        reserved: 700,
        free: 300,
        total_assets: 5000,
        liabilities: 2000,
        net_worth: 3000,
        conditional: 700,
        unreserved: 400,
    }
}
