use chrono::Datelike;
use atlas_screens::assumptions::TagTone;
use atlas_screens::funding::{
    FundingRuleRef, category_expenses_text, empty_funding_note_text, funding_counts_text, funding_status_tag,
    has_scenario_funding_rule,
};
use atlas_screens::taxes::{
    TaxEventRef, TaxEventsBody, TaxFilter, TaxView, cash_moves_text, categories_line_text, entity_filter,
    is_tax_filtered, listed_tax_events, open_tax_reserve_earmark, pack_is_open, pack_meta_text, pack_note_text,
    reserve_card_text, tax_events_body,
};
use atlas_screens::timeline::Entity;
use atlas_screens::access::Disclosure;
use atlas_screens::today::{
    Marker, Membership, SetupAccount, SetupFacts, checklist, deficit_line_text, membership_summary, setup_facts,
};

fn day(y: i32, m: u32, d: u32) -> i32 {
    chrono::NaiveDate::from_ymd_opt(y, m, d).unwrap().num_days_from_ce()
}

fn events() -> Vec<TaxEventRef> {
    vec![
        TaxEventRef { entity: Entity::Person(1), rule: 10, cash_date: day(2024, 6, 1) },
        TaxEventRef { entity: Entity::Company(5), rule: 11, cash_date: day(2025, 2, 1) },
        TaxEventRef { entity: Entity::Person(1), rule: 11, cash_date: day(2025, 3, 1) },
    ]
}

fn all() -> TaxFilter {
    TaxFilter { entity_row: 0, rule_row: 0, payable_row: 0 }
}

#[test]
fn tax_filters_keep_the_matching_events() {
    let entities = vec![Entity::Person(1), Entity::Company(5)];
    let rules = vec![10, 11];
    let through = day(2024, 12, 31);
    assert_eq!(listed_tax_events(&events(), all(), &entities, &rules, through), vec![0, 1, 2]);
    let person = TaxFilter { entity_row: 1, ..all() };
    assert_eq!(listed_tax_events(&events(), person, &entities, &rules, through), vec![0, 2]);
    let rule_11 = TaxFilter { rule_row: 2, ..all() };
    assert_eq!(listed_tax_events(&events(), rule_11, &entities, &rules, through), vec![1, 2]);
    let within = TaxFilter { payable_row: 1, ..all() };
    assert_eq!(listed_tax_events(&events(), within, &entities, &rules, through), vec![0]);
    let after = TaxFilter { payable_row: 2, entity_row: 1, ..all() };
    assert_eq!(listed_tax_events(&events(), after, &entities, &rules, through), vec![2]);
    let past_last_rule = TaxFilter { rule_row: 3, ..all() };
    assert!(listed_tax_events(&events(), past_last_rule, &entities, &rules, through).is_empty());
    let past_last_entity = TaxFilter { entity_row: 3, ..all() };
    assert_eq!(listed_tax_events(&events(), past_last_entity, &entities, &rules, through), vec![0, 1, 2]);
    assert_eq!(entity_filter(2, &entities), Some(Entity::Company(5)));
    assert_eq!(entity_filter(3, &entities), None);
    assert!(!is_tax_filtered(all(), &entities));
    assert!(!is_tax_filtered(past_last_entity, &entities));
    assert!(is_tax_filtered(person, &entities));
    assert!(is_tax_filtered(within, &entities));
}

#[test]
fn tax_register_states() {
    assert_eq!(tax_events_body(0, 0), TaxEventsBody::Empty);
    assert_eq!(tax_events_body(3, 0), TaxEventsBody::NoMatch);
    assert_eq!(tax_events_body(3, 1), TaxEventsBody::Rows);
    let through = day(2024, 12, 31);
    assert_eq!(cash_moves_text(day(2024, 6, 1), through), "01 Jun 2024");
    assert_eq!(
        cash_moves_text(day(2025, 2, 1), through),
        "01 Feb 2025 — after the horizon, so it is a reserve requirement, not a posting in this window"
    );
}

#[test]
fn tax_reserve_readings() {
    assert_eq!(reserve_card_text(-5).0, "A refund to come, not spendable cash");
    assert_eq!(reserve_card_text(0).0, "A reserve requirement, not an earmark");
    assert_eq!(open_tax_reserve_earmark(Some(9000)), Some((9000, "Tax payable after the horizon".to_string())));
    assert_eq!(open_tax_reserve_earmark(Some(0)), None);
    assert_eq!(open_tax_reserve_earmark(Some(-10)), None);
    assert_eq!(open_tax_reserve_earmark(None), None);
}

#[test]
fn tax_packs_accordion() {
    assert!(pack_is_open(&Vec::new(), 0));
    assert!(!pack_is_open(&Vec::new(), 1));
    assert!(pack_is_open(&vec![2, 1], 1));
    assert!(!pack_is_open(&vec![2, 1], 0));
    assert_eq!(pack_meta_text(2, "Demo", 1), "Version 2 · Demo · 1 rule");
    assert_eq!(pack_meta_text(2, "Demo", 3), "Version 2 · Demo · 3 rules");
    assert_eq!(pack_note_text(false), "Unverified: nobody has reviewed its source. It applies alongside the configured packs.");
    assert_eq!(categories_line_text(&Vec::new()), "Every category");
    assert_eq!(categories_line_text(&vec!["Salary".to_string(), "Rent".to_string()]), "Salary, Rent");
}

#[test]
fn tax_view_state() {
    let mut v = TaxView { filter: TaxFilter { entity_row: 2, rule_row: 1, payable_row: 2 }, event_expanded: Some(0) };
    let entities = vec![Entity::Person(1), Entity::Company(5)];
    v.apply_tax_entity_filter(Entity::Person(1), &entities);
    assert_eq!(v.filter, TaxFilter { entity_row: 1, rule_row: 1, payable_row: 2 });
    v.apply_tax_entity_filter(Entity::Company(9), &entities);
    assert_eq!(v.filter.entity_row, 1);
    v.toggle_tax_event(0);
    assert_eq!(v.event_expanded, None);
    v.toggle_tax_event(3);
    assert_eq!(v.event_expanded, Some(3));
    v.clear_tax_filters();
    assert_eq!(v, TaxView { filter: all(), event_expanded: None });
}

#[test]
fn funding_readings() {
    let t = funding_status_tag(true, Some("5,000"));
    assert_eq!((t.tone, t.label.as_str()), (TagTone::Danger, "Not allowed"));
    let t = funding_status_tag(false, Some("5,000"));
    assert_eq!((t.tone, t.label.as_str()), (TagTone::Secondary, "Keep at least 5,000"));
    let t = funding_status_tag(false, None);
    assert_eq!((t.tone, t.label.as_str()), (TagTone::Secondary, "Allowed"));
    assert_eq!(funding_counts_text(1, 0), "1 account in the funding order · 0 categories with a bank-selection rule");
    assert_eq!(funding_counts_text(3, 1), "3 accounts in the funding order · 1 category with a bank-selection rule");
    assert_eq!(category_expenses_text("Groceries"), "“Groceries” expenses");
    assert_eq!(
        empty_funding_note_text(false, Some("Move"), true),
        "No household-wide funding rule is in force today. Rules scoped to scenario “Move” apply only under that plan."
    );
    let generic = "No funding rule is in force today. A purchase still uses the sources you allow explicitly.";
    assert_eq!(empty_funding_note_text(true, Some("Move"), true), generic);
    assert_eq!(empty_funding_note_text(false, None, true), generic);
    assert_eq!(empty_funding_note_text(false, Some("Move"), false), generic);
    let rules = vec![
        FundingRuleRef { scenario_scoped: true, steers_funding: false },
        FundingRuleRef { scenario_scoped: false, steers_funding: true },
    ];
    assert!(!has_scenario_funding_rule(&rules));
    let rules = vec![FundingRuleRef { scenario_scoped: true, steers_funding: true }];
    assert!(has_scenario_funding_rule(&rules));
}

#[test]
fn checklist_marks_the_first_missing_step() {
    let f = SetupFacts {
        first_person: Some("Ayesha".to_string()),
        usable_account: None,
        restricted_accounts_exist: true,
        planned_series: 0,
        saved_to: None,
    };
    let rows = checklist(&f).unwrap();
    assert_eq!(rows.len(), 4);
    assert_eq!(rows.iter().map(|r| r.marker).collect::<Vec<_>>(), vec![Marker::Done, Marker::Next, Marker::Blank, Marker::Blank]);
    assert_eq!(rows[0].text, "Ayesha");
    assert_eq!(rows[1].text, "No usable account is disclosed to this viewer");
    assert_eq!(rows[2].text, "Add planned income or spending");
    assert_eq!(rows[3].text, "Save this household");
    let ready = SetupFacts { usable_account: Some("Current".to_string()), planned_series: 3, ..f.clone() };
    assert!(checklist(&ready).is_none());
    let nobody = SetupFacts { first_person: None, restricted_accounts_exist: false, saved_to: Some("/h.atlas".to_string()), ..f };
    let rows = checklist(&nobody).unwrap();
    assert_eq!(rows[0].marker, Marker::Next);
    assert_eq!(rows[1].text, "Add a personal cash account");
    assert_eq!(rows[3].marker, Marker::Done);
    assert_eq!(rows.iter().filter(|r| r.marker == Marker::Next).count(), 1);
}

#[test]
fn membership_and_deficit_lines() {
    let m = Membership { people: 2, companies: 1, accounts: 7, hidden_accounts: 0 };
    assert_eq!(membership_summary(&m), "2 people · 1 company · 7 accounts visible");
    let m = Membership { people: 1, companies: 0, accounts: 1, hidden_accounts: 2 };
    assert_eq!(membership_summary(&m), "1 person · 0 companies · 1 account visible · 2 not disclosed");
    assert_eq!(deficit_line_text(Some("300")), "Shown as 0: the floor is breached by 300");
    assert_eq!(deficit_line_text(None), "No deficit against the hard floor");
}

fn setup_account(name: &str, company: bool, cash: bool, included: bool, disclosure: Disclosure) -> SetupAccount {
    SetupAccount { name: name.to_string(), is_company_account: company, is_cash: cash, included, disclosure }
}

#[test]
fn setup_facts_from_the_household() {
    let accounts = vec![
        setup_account("Shop till", true, true, true, Disclosure::Full),
        setup_account("Loan", false, false, true, Disclosure::Full),
        setup_account("Current", false, true, true, Disclosure::Full),
        setup_account("Savings", false, true, true, Disclosure::Full),
    ];
    let f = setup_facts(Some("Ayesha"), &accounts, &vec![None, Some(3), None], Some("/h.atlas"), false);
    assert_eq!(f.first_person, Some("Ayesha".to_string()));
    assert_eq!(f.usable_account, Some("Current".to_string()));
    assert!(!f.restricted_accounts_exist);
    assert_eq!(f.planned_series, 2);
    assert_eq!(f.saved_to, Some("/h.atlas".to_string()));
    let dirty = setup_facts(None, &accounts, &vec![Some(1)], Some("/h.atlas"), true);
    assert_eq!(dirty.saved_to, None);
    assert_eq!(dirty.planned_series, 0);
    assert_eq!(dirty.first_person, None);
    let restricted = vec![
        setup_account("Joint", false, true, true, Disclosure::BalanceOnly),
        setup_account("Shop", true, true, true, Disclosure::Full),
    ];
    let f = setup_facts(Some("Bilal"), &restricted, &Vec::new(), None, false);
    assert_eq!(f.usable_account, None);
    assert!(f.restricted_accounts_exist);
    let rows = checklist(&f).unwrap();
    assert_eq!(rows[1].text, "No usable account is disclosed to this viewer");
    let companies_only = vec![setup_account("Shop", true, true, true, Disclosure::Full)];
    let f = setup_facts(Some("Bilal"), &companies_only, &Vec::new(), None, false);
    assert!(!f.restricted_accounts_exist);
}
