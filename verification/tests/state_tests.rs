use chrono::{TimeZone, Utc};
use codex_usage_tray::clock::UtcTime;
use codex_usage_tray::config::Config;
use codex_usage_tray::i18n::Lang;
use codex_usage_tray::state::{window_label, AppState, Output};
use codex_usage_tray::usage::{Credits, Snapshot, WindowUsage};

fn units(util: f64) -> u32 {
    (util * 1_000_000.0).round() as u32
}

fn reset_at(ts: i64) -> Option<UtcTime> {
    UtcTime::from_timestamp(ts)
}

fn snap(util: f64) -> Result<Snapshot, String> {
    Ok(Snapshot {
        primary: Some(WindowUsage {
            utilization: units(util),
            duration_minutes: Some(300),
            resets_at: reset_at(Utc.with_ymd_and_hms(2026, 8, 7, 18, 0, 0).unwrap().timestamp()),
        }),
        secondary: Some(WindowUsage {
            utilization: units(12.0),
            duration_minutes: Some(10_080),
            resets_at: None,
        }),
        credits: Some(Credits { has_credits: true, unlimited: false, balance: Some("12.34".into()) }),
        plan_type: Some("plus".into()),
        limit_id: Some("codex".into()),
        reset_credits_available: None,
    })
}

fn state() -> AppState {
    let mut cfg = Config::default();
    cfg.language = "en".into();
    AppState::new(cfg, Lang::Pt)
}

fn percent(out: &Output) -> Option<f64> {
    out.utilization.map(|u| u as f64 / 1_000_000.0)
}

#[test]
fn no_notification_on_first_sample() {
    let mut st = state();
    let out = st.apply(snap(90.0));
    assert!(out.notifications.is_empty());
    assert_eq!(percent(&out), Some(90.0));
}

#[test]
fn notifies_once_when_crossing_threshold() {
    let mut st = state();
    st.apply(snap(45.0));
    let out = st.apply(snap(55.0));
    assert_eq!(out.notifications.len(), 1);
    assert!(out.notifications[0].1.contains("55%"));
    assert!(st.apply(snap(60.0)).notifications.is_empty());
}

#[test]
fn reset_detected_when_usage_drops() {
    let mut st = state();
    st.apply(snap(85.0));
    let out = st.apply(snap(2.0));
    assert_eq!(out.notifications.len(), 1);
}

#[test]
fn tooltip_fits_windows_limit() {
    let mut st = state();
    let out = st.apply(snap(33.0));
    assert!(out.tooltip.chars().count() <= 126);
    assert!(out.tooltip.contains("5h: 33%"));
    assert!(out.tooltip.contains("7d: 12%"));
}

#[test]
fn labels_are_duration_based() {
    assert_eq!(window_label(Some(300)), "5h");
    assert_eq!(window_label(Some(10_080)), "7d");
    assert_eq!(window_label(Some(1_440)), "1d");
}

#[test]
fn labels_for_hours_minutes_and_unknown() {
    assert_eq!(window_label(Some(120)), "2h");
    assert_eq!(window_label(Some(90)), "90min");
    assert_eq!(window_label(Some(2_880)), "2d");
    assert_eq!(window_label(Some(0)), "0d");
    assert_eq!(window_label(None), "quota");
}

#[test]
fn render_gives_exact_tooltip_and_threshold_text() {
    let mut st = state();
    let first = st.render(&snap(45.0).unwrap(), Some("18:00 (2h13)".to_string()), None);
    assert_eq!(
        first.tooltip,
        "5h: 45% used · resets 18:00 (2h13)\n7d: 12% used\ncredits: 12.34"
    );
    assert!(first.notifications.is_empty());
    let out = st.render(&snap(80.0).unwrap(), Some("18:00 (2h13)".to_string()), None);
    assert_eq!(out.notifications.len(), 1);
    assert_eq!(out.notifications[0].0, "Codex usage");
    assert_eq!(
        out.notifications[0].1,
        "You've used 80% of the 5h window. Resets 18:00 (2h13)."
    );
}

#[test]
fn crossing_two_thresholds_notifies_once() {
    let mut st = state();
    st.render(&snap(10.0).unwrap(), None, None);
    let out = st.render(&snap(97.0).unwrap(), None, None);
    assert_eq!(out.notifications.len(), 1);
}

#[test]
fn reset_notice_text_and_switch_off() {
    let mut st = state();
    st.render(&snap(85.0).unwrap(), None, None);
    let out = st.render(&snap(2.0).unwrap(), None, None);
    assert_eq!(out.notifications[0].1, "New 5h window — quota available again.");

    let mut cfg = Config::default();
    cfg.language = "en".into();
    cfg.notify_on_reset = false;
    let mut quiet = AppState::new(cfg, Lang::En);
    quiet.render(&snap(85.0).unwrap(), None, None);
    assert!(quiet.render(&snap(2.0).unwrap(), None, None).notifications.is_empty());
}

#[test]
fn drop_of_exactly_five_points_is_not_a_reset() {
    let mut st = state();
    st.render(&snap(30.0).unwrap(), None, None);
    assert!(st.render(&snap(25.0).unwrap(), None, None).notifications.is_empty());
    let mut st = state();
    st.render(&snap(30.0).unwrap(), None, None);
    assert_eq!(st.render(&snap(24.99).unwrap(), None, None).notifications.len(), 1);
}

#[test]
fn change_of_window_is_silent() {
    let mut st = state();
    st.render(&snap(40.0).unwrap(), None, None);
    let mut weekly = snap(90.0).unwrap();
    weekly.primary = None;
    assert!(st.render(&weekly, None, None).notifications.is_empty());
}

#[test]
fn portuguese_texts() {
    let mut cfg = Config::default();
    cfg.language = "pt".into();
    let mut st = AppState::new(cfg, Lang::En);
    st.render(&snap(45.0).unwrap(), None, None);
    let out = st.render(&snap(51.0).unwrap(), None, None);
    assert_eq!(out.notifications[0].0, "Uso do Codex");
    assert_eq!(out.notifications[0].1, "Você já usou 51% da janela 5h.");
    assert!(out.tooltip.starts_with("5h: 51% usado\n7d: 12% usado\ncréditos: 12.34"));
}

#[test]
fn error_grays_icon_and_keeps_memory() {
    let mut st = state();
    st.apply(snap(45.0));
    let out = st.apply(Err("boom".to_string()));
    assert_eq!(out.tooltip, "Codex: error fetching usage\nboom");
    assert_eq!(out.utilization, None);
    assert!(out.notifications.is_empty());
    let after = st.apply(snap(55.0));
    assert_eq!(after.notifications.len(), 1);
}

#[test]
fn long_error_is_cut_with_ellipsis() {
    let mut st = state();
    let out = st.apply(Err("x".repeat(300)));
    assert_eq!(out.tooltip.chars().count(), 126);
    assert!(out.tooltip.ends_with('…'));
}

#[test]
fn empty_snapshot_shows_unavailable_and_zero() {
    let mut st = state();
    let empty = Snapshot {
        primary: None,
        secondary: None,
        credits: Some(Credits { has_credits: false, unlimited: true, balance: None }),
        plan_type: None,
        limit_id: None,
        reset_credits_available: Some(3),
    };
    let out = st.render(&empty, None, None);
    assert_eq!(out.tooltip, "Codex: limits unavailable\ncredits: unlimited\nresets available: 3");
    assert_eq!(out.utilization, Some(0));
}

#[test]
fn zero_reset_credits_are_not_shown() {
    let mut st = state();
    let mut s = snap(10.0).unwrap();
    s.credits = Some(Credits { has_credits: false, unlimited: false, balance: Some("1".into()) });
    s.reset_credits_available = Some(0);
    let out = st.render(&s, None, None);
    assert_eq!(out.tooltip, "5h: 10% used\n7d: 12% used");
}

#[test]
fn shorter_secondary_is_listed_and_watched_first() {
    let mut st = state();
    let s = Snapshot {
        primary: Some(WindowUsage { utilization: 12_000_000, duration_minutes: Some(10_080), resets_at: None }),
        secondary: Some(WindowUsage { utilization: 33_000_000, duration_minutes: Some(300), resets_at: None }),
        credits: None,
        plan_type: None,
        limit_id: None,
        reset_credits_available: None,
    };
    let out = st.render(&s, None, None);
    assert_eq!(out.tooltip, "5h: 33% used\n7d: 12% used");
    assert_eq!(out.utilization, Some(33_000_000));
}

#[test]
fn percentages_round_half_to_even() {
    let mut st = state();
    let mut s = snap(0.0).unwrap();
    s.secondary = None;
    s.credits = None;
    s.primary.as_mut().unwrap().utilization = 2_500_000;
    assert_eq!(st.render(&s, None, None).tooltip, "5h: 2% used");
    s.primary.as_mut().unwrap().utilization = 3_500_000;
    assert_eq!(st.render(&s, None, None).tooltip, "5h: 4% used");
    s.primary.as_mut().unwrap().utilization = 2_500_001;
    assert_eq!(st.render(&s, None, None).tooltip, "5h: 3% used");
    s.primary.as_mut().unwrap().utilization = 505_000;
    assert_eq!(st.render(&s, None, None).tooltip, "5h: 1% used");
}

#[test]
fn same_snapshot_twice_is_silent() {
    let mut st = state();
    st.render(&snap(10.0).unwrap(), None, None);
    st.render(&snap(60.0).unwrap(), None, None);
    assert!(st.render(&snap(60.0).unwrap(), None, None).notifications.is_empty());
}

#[test]
fn apply_tooltip_carries_reset_time() {
    let mut st = state();
    let out = st.apply(snap(20.0));
    assert!(out.tooltip.starts_with("5h: 20% used · resets "));
    assert!(out.tooltip.contains(")\n7d: 12% used"));
}
