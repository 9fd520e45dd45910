use chrono::Datelike;
use atlas_screens::activity::{SeriesDetail, series_detail};
use atlas_screens::assumptions::{PaidPayment, derivation_sample};
use atlas_screens::decisions::{decision_samples, term_months};
use atlas_screens::projections::{PathStep, path_samples};
use atlas_screens::scenarios::{ComparedPoint, comparison_values, point_title_text};

fn day(y: i32, m: u32, d: u32) -> i32 {
    chrono::NaiveDate::from_ymd_opt(y, m, d).unwrap().num_days_from_ce()
}

#[test]
fn series_detail_of_a_series_no_longer_held() {
    match series_detail(false, &vec![4, 7], 4) {
        SeriesDetail::Unknown { title, note } => {
            assert_eq!(title, "Unknown series");
            assert_eq!(note, "This series no longer exists.");
        }
        other => panic!("expected the unknown-series screen, got {:?}", other),
    }
}

#[test]
fn series_detail_of_a_series_not_disclosed_names_nothing() {
    match series_detail(true, &vec![4, 7], 9) {
        SeriesDetail::NotDisclosed { title, notice } => {
            assert_eq!(title, "Series");
            assert_eq!(
                notice,
                "Its account or company is not disclosed to this viewer, or it belongs to a plan not on show."
            );
        }
        other => panic!("expected the not-disclosed notice, got {:?}", other),
    }
}

#[test]
fn series_detail_of_a_visible_series_is_shown() {
    assert!(matches!(series_detail(true, &vec![4, 7], 7), SeriesDetail::Shown));
}

#[test]
fn comparison_values_keep_the_first_forty_points_in_order() {
    let path: Vec<ComparedPoint> = (0..45)
        .map(|i| ComparedPoint { day: 739000 + i, baseline: 1_000 * i as i64, scenario: 1_000 * i as i64 + 50 - i as i64 })
        .collect();
    let rows = comparison_values(&path);
    assert_eq!(rows.len(), 40);
    for (i, r) in rows.iter().enumerate() {
        assert_eq!(r.day, 739000 + i as i32);
        assert_eq!(r.baseline, path[i].baseline);
        assert_eq!(r.scenario, path[i].scenario);
        assert_eq!(r.difference, 50 - i as i128);
    }
}

#[test]
fn comparison_values_of_a_short_path_list_every_point() {
    let path = vec![
        ComparedPoint { day: 739000, baseline: 500, scenario: 200 },
        ComparedPoint { day: 739030, baseline: i64::MIN, scenario: i64::MAX },
    ];
    let rows = comparison_values(&path);
    assert_eq!(rows.len(), 2);
    assert_eq!(rows[0].difference, -300);
    assert_eq!(rows[1].difference, i64::MAX as i128 - i64::MIN as i128);
    assert!(comparison_values(&Vec::new()).is_empty());
}

#[test]
fn point_title_names_the_date_and_position() {
    assert_eq!(point_title_text(day(2025, 3, 1), 0, 12), "Selected: 01 Mar 2025 · point 1 of 12");
    assert_eq!(point_title_text(day(2026, 11, 30), 11, 12), "Selected: 30 Nov 2026 · point 12 of 12");
}

#[test]
fn derivation_sample_is_the_newest_six_newest_first() {
    let history: Vec<PaidPayment> =
        (1..=8).map(|i| PaidPayment { day: day(2024, i, 1), amount: 100 * i as i64 }).collect();
    let sample = derivation_sample(&history);
    let amounts: Vec<i64> = sample.iter().map(|p| p.amount).collect();
    assert_eq!(amounts, vec![800, 700, 600, 500, 400, 300]);
    assert_eq!(sample[0].day, day(2024, 8, 1));
}

#[test]
fn derivation_sample_of_a_short_history_reverses_it() {
    let history = vec![PaidPayment { day: 10, amount: 1 }, PaidPayment { day: 20, amount: 2 }];
    assert_eq!(derivation_sample(&history), vec![PaidPayment { day: 20, amount: 2 }, PaidPayment { day: 10, amount: 1 }]);
    assert!(derivation_sample(&Vec::new()).is_empty());
}

#[test]
fn term_months_reads_whole_months_from_one_to_forty_years() {
    assert_eq!(term_months("12"), Some(12));
    assert_eq!(term_months("  240\t"), Some(240));
    assert_eq!(term_months("\u{3000}36\u{a0}"), Some(36));
    assert_eq!(term_months("+60"), Some(60));
    assert_eq!(term_months("007"), Some(7));
    assert_eq!(term_months("1"), Some(1));
    assert_eq!(term_months("480"), Some(480));
}

#[test]
fn term_months_refuses_what_is_no_term() {
    assert_eq!(term_months(""), None);
    assert_eq!(term_months("   "), None);
    assert_eq!(term_months("0"), None);
    assert_eq!(term_months("481"), None);
    assert_eq!(term_months("99999999999999999999"), None);
    assert_eq!(term_months("-12"), None);
    assert_eq!(term_months("+"), None);
    assert_eq!(term_months("12 months"), None);
    assert_eq!(term_months("1 2"), None);
    assert_eq!(term_months("12.0"), None);
}

#[test]
fn path_samples_label_each_point_with_day_and_month() {
    let path = vec![PathStep { day: day(2025, 3, 1), balance: 120_000 }, PathStep { day: day(2025, 4, 15), balance: -5 }];
    let chart = path_samples(&path, 50_000);
    assert_eq!(chart.len(), 2);
    assert_eq!(chart[0].label, "01 Mar");
    assert_eq!(chart[1].label, "15 Apr");
    assert_eq!(chart[1].balance, -5);
    assert!(chart.iter().all(|c| c.floor == 50_000));
}

#[test]
fn decision_samples_follow_the_merged_path() {
    let path = vec![
        ComparedPoint { day: day(2026, 1, 31), baseline: 900, scenario: 400 },
        ComparedPoint { day: day(2026, 2, 28), baseline: 950, scenario: 300 },
    ];
    let chart = decision_samples(&path, 250);
    assert_eq!(chart.len(), 2);
    assert_eq!(chart[0].label, "31 Jan");
    assert_eq!((chart[1].baseline, chart[1].decision, chart[1].reserve), (950, 300, 250));
    assert_eq!(chart[1].label, "28 Feb");
}
