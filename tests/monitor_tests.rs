use usage_monitor::fetch::{degraded, FetchError};
use usage_monitor::notify::{money, tray_label, tray_tooltip};
use usage_monitor::model::SessionData;
use usage_monitor::poller::{end_cycle, replace_settings, usage_reply};
use usage_monitor::settings::{str_equals, AppSettings};

fn with_freq(f: &str) -> AppSettings {
    AppSettings { polling_frequency: f.to_string(), auto_start: false }
}

#[test]
fn default_settings() {
    let s = AppSettings::default();
    assert_eq!(s.polling_frequency, "5min");
    assert!(s.auto_start);
    assert_eq!(s.interval_secs(), 300);
}

#[test]
fn interval_table() {
    assert_eq!(with_freq("1min").interval_secs(), 60);
    assert_eq!(with_freq("5min").interval_secs(), 300);
    assert_eq!(with_freq("10min").interval_secs(), 600);
    assert_eq!(with_freq("2min").interval_secs(), 300);
    assert_eq!(with_freq("").interval_secs(), 300);
}

#[test]
fn update_to_one_minute_sets_next_sleep() {
    let mut cur = AppSettings::default();
    assert_eq!(cur.interval_secs(), 300);
    replace_settings(&mut cur, with_freq("1min"));
    assert_eq!(cur.interval_secs(), 60);
    assert!(!cur.auto_start);
    let end = end_cycle(cur.interval_secs(), Ok(degraded("d", "t".to_string(), "m".to_string())));
    assert_eq!(end.sleep_secs, 60);
}

#[test]
fn cycle_stores_snapshot_or_logs_error() {
    let end = end_cycle(300, Ok(degraded("d", "t".to_string(), "m".to_string())));
    assert!(end.store.is_some());
    assert!(end.log.is_none());
    let end = end_cycle(600, Err(FetchError::ProcessFailed("e".to_string())));
    assert!(end.store.is_none());
    assert_eq!(end.log.as_deref(), Some("Failed to fetch usage data: Helper script failed: e"));
    assert_eq!(end.sleep_secs, 600);
}

#[test]
fn reply_prefixes_errors() {
    let r = usage_reply(Err(FetchError::NoJsonFound));
    assert_eq!(r.unwrap_err(), "Failed to get usage data: No JSON found in output");
    let r = usage_reply(Ok(degraded("d", "t".to_string(), "m".to_string())));
    assert_eq!(r.unwrap().error.as_deref(), Some("m"));
}

#[test]
fn money_formatting() {
    assert_eq!(money(1_500_000), "$1.50");
    assert_eq!(money(0), "$0.00");
    assert_eq!(money(4_999), "$0.00");
    assert_eq!(money(5_000), "$0.01");
    assert_eq!(money(123_456_789), "$123.46");
    assert_eq!(money(99_995_000), "$100.00");
}

#[test]
fn label_and_tooltip() {
    let mut d = degraded("2024-01-01", "t".to_string(), "m".to_string());
    d.today.cost = 2_340_000;
    assert_eq!(tray_label(&d), "$2.34");
    assert_eq!(tray_tooltip(&d), "Today: $2.34 | Mode: daily");
    d.session = Some(SessionData {
        id: None,
        cost: 1_000_000,
        is_active: true,
        start_time: None,
        end_time: None,
    });
    assert_eq!(tray_tooltip(&d), "Today: $2.34 | Session: $1.00 (Active)");
    d.session.as_mut().unwrap().is_active = false;
    assert_eq!(tray_tooltip(&d), "Today: $2.34 | Session: $1.00");
}

#[test]
fn string_equality() {
    assert!(str_equals("5min", "5min"));
    assert!(!str_equals("5min", "5mim"));
    assert!(!str_equals("5min", "5mins"));
}
