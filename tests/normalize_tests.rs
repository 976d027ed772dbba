use usage_monitor::fetch::{settle, FetchError, Payload};
use usage_monitor::model::{DayData, DayEntry};
use usage_monitor::normalize::{find_day, in_month_of, normalize, sat_add};

fn entry(date: &str, total_cost: Option<u64>, cost: Option<u64>) -> DayEntry {
    DayEntry {
        date: date.to_string(),
        total_cost,
        cost,
        input_tokens: None,
        output_tokens: None,
        cache_creation_tokens: None,
        cache_read_tokens: None,
        total_tokens: None,
        models_used: vec![],
        model_breakdowns: "[]".to_string(),
    }
}

#[test]
fn single_day_today_scenario() {
    let mut e = entry("2024-01-01", Some(1_500_000), None);
    e.input_tokens = Some(100);
    let r = normalize(&vec![e], "2024-01-01", "2024-01-01T10:00:00Z".to_string());
    assert_eq!(r.today.cost, 1_500_000);
    assert_eq!(r.today.input_tokens, 100);
    assert_eq!(r.today.output_tokens, 0);
    assert_eq!(r.totals.cost, 1_500_000);
    assert_eq!(r.totals.total_cost, 1_500_000);
    assert_eq!(r.totals.weekly_cost, 1_500_000);
    assert_eq!(r.totals.monthly_cost, 1_500_000);
    assert_eq!(r.totals.input_tokens, 100);
    assert_eq!(r.recent.len(), 1);
    assert_eq!(r.mode, "daily");
    assert!(r.error.is_none());
    assert!(r.session.is_none());
    assert_eq!(r.last_updated, "2024-01-01T10:00:00Z");
}

#[test]
fn both_payload_shapes_agree() {
    let days = vec![
        entry("2024-03-30", Some(2_000_000), None),
        entry("2024-03-31", None, Some(1_000_000)),
    ];
    let a = settle(Ok(Payload::Bare(days.clone())), "2024-03-31", "t".to_string()).unwrap();
    let b = settle(Ok(Payload::Wrapped(days)), "2024-03-31", "t".to_string()).unwrap();
    assert_eq!(a.today.cost, b.today.cost);
    assert_eq!(a.totals.total_cost, b.totals.total_cost);
    assert_eq!(a.totals.weekly_cost, b.totals.weekly_cost);
    assert_eq!(a.totals.monthly_cost, b.totals.monthly_cost);
    assert_eq!(a.recent.len(), b.recent.len());
    assert_eq!(a.totals.total_cost, 3_000_000);
}

#[test]
fn cost_alias_matches_total() {
    let days = vec![entry("2024-05-01", Some(7), None), entry("2024-05-02", Some(8), None)];
    let r = normalize(&days, "2024-05-02", "t".to_string());
    assert_eq!(r.totals.cost, r.totals.total_cost);
    assert_eq!(r.totals.cost, 15);
}

#[test]
fn weekly_sums_last_seven_days() {
    let mut days = Vec::new();
    for i in 1..=9u64 {
        days.push(entry(&format!("2024-02-0{}", i), Some(i * 1000), None));
    }
    let r = normalize(&days, "2024-02-09", "t".to_string());
    assert_eq!(r.recent.len(), 7);
    assert_eq!(r.recent[0].date, "2024-02-03");
    assert_eq!(r.recent[6].date, "2024-02-09");
    let sum: u64 = r.recent.iter().map(|d| d.cost).sum();
    assert_eq!(r.totals.weekly_cost, sum);
    assert_eq!(r.totals.weekly_cost, (3..=9).sum::<u64>() * 1000);
    assert_eq!(r.totals.total_cost, 45_000);
}

#[test]
fn weekly_with_fewer_than_seven_days() {
    let days = vec![entry("2024-02-01", Some(5), None), entry("2024-02-02", Some(6), None)];
    let r = normalize(&days, "2024-02-02", "t".to_string());
    assert_eq!(r.recent.len(), 2);
    assert_eq!(r.totals.weekly_cost, 11);
}

#[test]
fn empty_day_list_gives_zero_snapshot() {
    let r = normalize(&vec![], "2024-02-02", "t".to_string());
    assert_eq!(r.recent.len(), 0);
    assert_eq!(r.today.date, "2024-02-02");
    assert_eq!(r.today.cost, 0);
    assert_eq!(r.totals.weekly_cost, 0);
    assert_eq!(r.totals.monthly_cost, 0);
    assert_eq!(r.totals.total_cost, 0);
    assert!(r.error.is_none());
}

#[test]
fn monthly_counts_only_current_month() {
    let days = vec![
        entry("2024-01-30", Some(100), None),
        entry("2024-01-31", Some(200), None),
        entry("2024-02-01", Some(400), None),
    ];
    let r = normalize(&days, "2024-02-01", "t".to_string());
    assert_eq!(r.totals.monthly_cost, 400);
    assert_eq!(r.totals.total_cost, 700);
}

#[test]
fn monthly_zero_when_no_day_in_month() {
    let days = vec![entry("2023-12-31", Some(100), None)];
    let r = normalize(&days, "2024-01-01", "t".to_string());
    assert_eq!(r.totals.monthly_cost, 0);
    assert_eq!(r.today.cost, 0);
    assert_eq!(r.today.date, "2024-01-01");
}

#[test]
fn cost_falls_back_from_total_to_cost_to_zero() {
    let days = vec![
        entry("2024-01-01", Some(3), Some(99)),
        entry("2024-01-02", None, Some(5)),
        entry("2024-01-03", None, None),
    ];
    let r = normalize(&days, "2024-01-02", "t".to_string());
    assert_eq!(r.recent[0].cost, 3);
    assert_eq!(r.recent[1].cost, 5);
    assert_eq!(r.recent[2].cost, 0);
    assert_eq!(r.today.cost, 5);
}

#[test]
fn token_totals_sum_all_days() {
    let mut a = entry("2024-01-01", Some(1), None);
    a.input_tokens = Some(10);
    a.output_tokens = Some(20);
    a.cache_creation_tokens = Some(30);
    a.cache_read_tokens = Some(40);
    let mut b = entry("2024-01-02", Some(1), None);
    b.input_tokens = Some(1);
    b.cache_read_tokens = Some(2);
    let r = normalize(&vec![a, b], "2024-01-02", "t".to_string());
    assert_eq!(r.totals.input_tokens, 11);
    assert_eq!(r.totals.output_tokens, 20);
    assert_eq!(r.totals.cache_creation_tokens, 30);
    assert_eq!(r.totals.cache_read_tokens, 42);
}

#[test]
fn sums_saturate_at_the_largest_value() {
    let days = vec![entry("2024-01-01", Some(u64::MAX), None), entry("2024-01-02", Some(5), None)];
    let r = normalize(&days, "2024-01-02", "t".to_string());
    assert_eq!(r.totals.total_cost, u64::MAX);
    assert_eq!(sat_add(u64::MAX - 1, 5), u64::MAX);
    assert_eq!(sat_add(2, 3), 5);
}

#[test]
fn models_map_built_from_models_used() {
    let mut e = entry("2024-01-01", Some(1), None);
    e.models_used = vec!["opus".to_string(), "sonnet".to_string()];
    let d = DayData::from_entry(&e);
    assert_eq!(d.models_used, vec!["opus".to_string(), "sonnet".to_string()]);
    assert_eq!(d.models, vec![("opus".to_string(), true), ("sonnet".to_string(), true)]);
    let r = normalize(&vec![e], "2024-01-01", "t".to_string());
    assert_eq!(r.today.models.len(), 2);
    assert!(r.today.models.iter().all(|(_, f)| *f));
    assert_eq!(r.recent[0].models[1].0, "sonnet");
}

#[test]
fn first_day_with_todays_date_is_today() {
    let days = vec![
        entry("2024-01-01", Some(1), None),
        entry("2024-01-02", Some(2), None),
        entry("2024-01-02", Some(3), None),
    ];
    assert_eq!(find_day(&days, "2024-01-02"), Some(1));
    assert_eq!(find_day(&days, "2024-01-05"), None);
    let r = normalize(&days, "2024-01-02", "t".to_string());
    assert_eq!(r.today.cost, 2);
}

#[test]
fn month_prefix_comparison() {
    assert!(in_month_of("2024-01-31", "2024-01-02"));
    assert!(!in_month_of("2024-02-01", "2024-01-02"));
    assert!(!in_month_of("2024", "2024-01-02"));
    assert!(in_month_of("2024-01", "2024"));
}

#[test]
fn settle_passes_hard_failure_on() {
    let r = settle(Err(FetchError::ProcessFailed("boom".to_string())), "2024-01-01", "t".to_string());
    match r {
        Err(FetchError::ProcessFailed(m)) => assert_eq!(m, "boom"),
        _ => panic!("expected a hard failure"),
    }
    let r = settle(Err(FetchError::LockFailure("settings".to_string(), "poisoned".to_string())), "2024-01-01", "t".to_string());
    assert!(matches!(r, Err(FetchError::LockFailure(_, _))));
}

#[test]
fn settle_degrades_malformed_json() {
    let e = FetchError::MalformedJson("expected value".to_string(), "{oops".to_string());
    let r = settle(Err(e), "2024-01-01", "t".to_string()).unwrap();
    assert_eq!(r.error.as_deref(), Some("JSON parsing error: expected value - JSON: {oops"));
    assert_eq!(r.today.cost, 0);
    assert_eq!(r.totals.cost, 0);
    assert_eq!(r.totals.total_cost, 0);
    assert!(r.recent.is_empty());
}
