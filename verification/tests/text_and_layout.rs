use atlas_screens::access::{
    Disclosure, NamedObject, ObjectKind, ObjectRef, name_text, object_is_navigable, private_kind_text,
    shown_name_text, shows_balance, shows_derived, shows_existence,
};
use atlas_screens::navigation::{Milestone, breadcrumb_trail, milestone_line_text, selected_tab, tab_target};
use atlas_screens::order::{sort_by_key, sort_by_name};
use atlas_screens::settings::{
    backups_note_text, copy_path_note_text, currency_fact_text, failures_fact_text, file_fact_text, grid,
    lock_notice_text, readout_fact_text, version_fact_text,
};
use atlas_screens::text::{
    chars_of, contains_text, counted_text, decimal_text, find_seq, join_texts, percent_text, push_signed,
    push_two_digits,
};

#[test]
fn decimal_text_writes_digits() {
    assert_eq!(decimal_text(0), "0");
    assert_eq!(decimal_text(7), "7");
    assert_eq!(decimal_text(1200), "1200");
    assert_eq!(decimal_text(u64::MAX), "18446744073709551615");
}

#[test]
fn signed_numbers_carry_their_sign() {
    let mut s = String::new();
    push_signed(&mut s, -42);
    assert_eq!(s, "-42");
    let mut s = String::new();
    push_signed(&mut s, 0);
    assert_eq!(s, "0");
    let mut s = String::new();
    push_signed(&mut s, i64::MIN);
    assert_eq!(s, "-9223372036854775808");
}

#[test]
fn two_digits_pad_with_zero() {
    let mut s = String::new();
    push_two_digits(&mut s, 5);
    push_two_digits(&mut s, 42);
    assert_eq!(s, "0542");
}

#[test]
fn counted_nouns_agree() {
    assert_eq!(counted_text(1, "person", "people"), "1 person");
    assert_eq!(counted_text(0, "person", "people"), "0 people");
    assert_eq!(counted_text(3, "account", "accounts"), "3 accounts");
}

#[test]
fn percent_from_basis_points() {
    assert_eq!(percent_text(125), "1.25%");
    assert_eq!(percent_text(5), "0.05%");
    assert_eq!(percent_text(10000), "100.00%");
    assert_eq!(percent_text(0), "0.00%");
}

#[test]
fn join_texts_like_vec_join() {
    let items = vec!["a".to_string(), "b".to_string(), "c".to_string()];
    assert_eq!(join_texts(&items, " · "), items.join(" · "));
    assert_eq!(join_texts(&Vec::new(), ", "), "");
    assert_eq!(join_texts(&vec!["only".to_string()], ", "), "only");
}

#[test]
fn finding_text_finds_the_first_occurrence() {
    let hay = chars_of("a: b: c");
    let needle = chars_of(": ");
    assert_eq!(find_seq(&hay, &needle), Some(1));
    assert_eq!(find_seq(&hay, &chars_of("zz")), None);
    assert!(contains_text("keeps the reserve", "keeps"));
    assert!(!contains_text("breaches the reserve", "keeps"));
    assert!(contains_text("anything", ""));
}

#[test]
fn disclosure_levels_nest_on_every_level() {
    for d in [Disclosure::Full, Disclosure::SelectedFields, Disclosure::BalanceOnly, Disclosure::Aggregate, Disclosure::Hidden] {
        if shows_derived(d) {
            assert!(shows_balance(d));
        }
        if shows_balance(d) {
            assert!(shows_existence(d));
        }
    }
    assert!(shows_derived(Disclosure::SelectedFields));
    assert!(!shows_derived(Disclosure::BalanceOnly));
    assert!(shows_balance(Disclosure::BalanceOnly));
    assert!(!shows_existence(Disclosure::Aggregate));
}

#[test]
fn objects_are_named_by_kind_when_hidden() {
    let account = NamedObject {
        object: ObjectRef { kind: ObjectKind::Account, id: 4 },
        name: Some("Savings".to_string()),
        display: "account 4".to_string(),
    };
    assert_eq!(name_text(&account), Some("Account: Savings".to_string()));
    assert_eq!(shown_name_text(&account, Disclosure::Full), "Account: Savings");
    assert_eq!(shown_name_text(&account, Disclosure::Hidden), "a private account");
    let gone = NamedObject { name: None, ..account.clone() };
    assert_eq!(name_text(&gone), None);
    assert_eq!(shown_name_text(&gone, Disclosure::BalanceOnly), "account 4");
    let series = NamedObject {
        object: ObjectRef { kind: ObjectKind::Series, id: 9 },
        name: None,
        display: "series 9".to_string(),
    };
    assert_eq!(name_text(&series), Some("series 9".to_string()));
    assert_eq!(private_kind_text(ObjectKind::Person), "a person");
    assert_eq!(private_kind_text(ObjectKind::Reservation), "a private object");
    assert!(object_is_navigable(ObjectRef { kind: ObjectKind::Scenario, id: 1 }));
    assert!(!object_is_navigable(ObjectRef { kind: ObjectKind::Goal, id: 1 }));
}

#[test]
fn sort_by_key_is_stable() {
    let keys = vec![3, 1, 2, 1, 3];
    assert_eq!(sort_by_key(&keys), vec![1, 3, 2, 0, 4]);
    assert_eq!(sort_by_key(&Vec::new()), Vec::<usize>::new());
}

#[test]
fn grid_pads_the_last_row() {
    let rows = grid(2, 3);
    assert_eq!(rows, vec![vec![Some(0), Some(1)], vec![Some(2), None]]);
    let rows = grid(4, 4);
    assert_eq!(rows, vec![vec![Some(0), Some(1), Some(2), Some(3)]]);
    assert!(grid(3, 0).is_empty());
    let rows = grid(1, 2);
    assert_eq!(rows, vec![vec![Some(0)], vec![Some(1)]]);
}

#[test]
fn settings_facts_read_as_sentences() {
    assert_eq!(currency_fact_text("PKR"), "PKR — one currency per household; no conversion");
    assert_eq!(file_fact_text(None), "Not saved to a file yet");
    assert_eq!(file_fact_text(Some("/tmp/h.atlas")), "/tmp/h.atlas");
    assert_eq!(copy_path_note_text(true), "File path copied.");
    assert_eq!(copy_path_note_text(false), "Not saved to a file yet.");
    assert_eq!(
        lock_notice_text("Ayesha", "2 hours ago"),
        "Ayesha opened it 2 hours ago. Save as… writes a copy at a different path; the original file is never written from this session."
    );
    assert_eq!(
        backups_note_text(5),
        "A copy of the previous file is kept in a backups folder next to it on every save; up to 5 kept."
    );
    assert_eq!(readout_fact_text(true), "Overlay on; gpui's reading is in the status bar");
    assert_eq!(readout_fact_text(false), "Overlay off; gpui's reading is in the status bar");
    assert_eq!(failures_fact_text(true), "Posted to the team chat");
    assert!(failures_fact_text(false).starts_with("Written to logs only"));
    assert_eq!(version_fact_text("0.3.1"), "Atlas Financer 0.3.1");
}

#[test]
fn workspace_tabs_and_breadcrumbs() {
    assert_eq!(selected_tab(Some(2)), 2);
    assert_eq!(selected_tab(None), 0);
    let routes = vec!['a', 'b'];
    assert_eq!(tab_target(&routes, 1), Some('b'));
    assert_eq!(tab_target(&routes, 2), None);
    assert_eq!(breadcrumb_trail("Household", "People", "Ayesha"), vec!["Household", "People", "Ayesha"]);
    assert_eq!(breadcrumb_trail("Rules & taxes", "Rules & taxes", "Fee"), vec!["Rules & taxes", "Fee"]);
}

#[test]
fn milestone_lines() {
    let m = Some(Milestone { number: 7, title: "Imports".to_string(), task_id: 42 });
    assert_eq!(milestone_line_text(&m), "Arrives with milestone M7 — Imports (board task #42)");
    assert_eq!(milestone_line_text(&None), "Not planned");
}

#[test]
fn sort_by_name_takes_rows_in_any_order_and_keeps_ties_in_input_order() {
    let names: Vec<Vec<char>> = ["Pension", "Current", "Savings", "Current"].iter().map(|n| n.chars().collect()).collect();
    assert_eq!(sort_by_name(&names, &vec![2, 3, 0, 1]), vec![3, 1, 0, 2]);
    assert_eq!(sort_by_name(&names, &vec![1, 3, 2]), vec![1, 3, 2]);
    assert_eq!(sort_by_name(&names, &vec![2, 2, 1]), vec![1, 2, 2]);
    assert!(sort_by_name(&names, &Vec::new()).is_empty());
}
