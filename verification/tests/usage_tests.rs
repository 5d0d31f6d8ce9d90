use codex_usage_tray::json::{Json, JsonNumber};
use codex_usage_tray::usage::{classify_reply, snapshot_from_result, Reply};

fn obj(members: Vec<(&str, Json)>) -> Json {
    Json::Object(members.into_iter().map(|(k, v)| (k.to_string(), v)).collect())
}

fn num(n: i64) -> Json {
    if n >= 0 {
        Json::Number(JsonNumber::PosInt(n as u64))
    } else {
        Json::Number(JsonNumber::NegInt(n))
    }
}

fn text(s: &str) -> Json {
    Json::Str(s.to_string())
}

#[test]
fn parses_current_codex_shape() {
    let v = obj(vec![
        (
            "rateLimits",
            obj(vec![
                ("limitId", text("codex")),
                (
                    "primary",
                    obj(vec![("usedPercent", num(25)), ("windowDurationMins", num(300)), ("resetsAt", num(1779459394))]),
                ),
                (
                    "secondary",
                    obj(vec![("usedPercent", num(18)), ("windowDurationMins", num(10080)), ("resetsAt", num(1779826837))]),
                ),
                (
                    "credits",
                    obj(vec![("hasCredits", Json::Bool(true)), ("unlimited", Json::Bool(false)), ("balance", text("766.76"))]),
                ),
                ("planType", text("pro")),
            ]),
        ),
        ("rateLimitResetCredits", obj(vec![("availableCount", num(2))])),
    ]);
    let s = snapshot_from_result(&v).unwrap();
    assert_eq!(s.primary.as_ref().unwrap().duration_minutes, Some(300));
    assert_eq!(s.secondary.as_ref().unwrap().duration_minutes, Some(10080));
    assert_eq!(s.focus_window().unwrap().utilization as f64 / 1_000_000.0, 25.0);
    assert_eq!(s.credits.unwrap().balance.as_deref(), Some("766.76"));
    assert_eq!(s.reset_credits_available, Some(2));
}

#[test]
fn prefers_codex_multi_bucket_snapshot() {
    let v = obj(vec![
        (
            "rateLimits",
            obj(vec![
                ("limitId", text("legacy")),
                ("primary", obj(vec![("usedPercent", num(99)), ("windowDurationMins", num(300))])),
            ]),
        ),
        (
            "rateLimitsByLimitId",
            obj(vec![(
                "codex",
                obj(vec![
                    ("limitId", text("codex")),
                    ("primary", obj(vec![("usedPercent", num(12)), ("windowDurationMins", num(300))])),
                    ("secondary", Json::Null),
                ]),
            )]),
        ),
    ]);
    let s = snapshot_from_result(&v).unwrap();
    assert_eq!(s.limit_id.as_deref(), Some("codex"));
    assert_eq!(s.primary.unwrap().utilization as f64 / 1_000_000.0, 12.0);
}

#[test]
fn weekly_only_primary_is_supported() {
    let v = obj(vec![(
        "rateLimits",
        obj(vec![
            ("limitId", text("codex")),
            ("primary", obj(vec![("usedPercent", num(22)), ("windowDurationMins", num(10080))])),
            ("secondary", Json::Null),
        ]),
    )]);
    let s = snapshot_from_result(&v).unwrap();
    assert_eq!(s.focus_window().unwrap().duration_minutes, Some(10080));
}

#[test]
fn null_codex_bucket_falls_back_to_rate_limits() {
    let v = obj(vec![
        ("rateLimits", obj(vec![("limitId", text("legacy"))])),
        ("rateLimitsByLimitId", obj(vec![("codex", Json::Null)])),
    ]);
    let s = snapshot_from_result(&v).unwrap();
    assert_eq!(s.limit_id.as_deref(), Some("legacy"));
    assert!(s.primary.is_none());
}

#[test]
fn missing_rate_limits_is_an_error() {
    let v = obj(vec![("other", num(1))]);
    let e = snapshot_from_result(&v).unwrap_err();
    assert_eq!(e, "rateLimits missing from account/rateLimits/read");
}

#[test]
fn percent_is_clamped_and_fractions_kept() {
    let v = obj(vec![(
        "rateLimits",
        obj(vec![
            ("primary", obj(vec![("usedPercent", num(140))])),
            ("secondary", obj(vec![("usedPercent", Json::Number(JsonNumber::Float(33_495_000)))])),
        ]),
    )]);
    let s = snapshot_from_result(&v).unwrap();
    assert_eq!(s.primary.unwrap().utilization, 100_000_000);
    assert_eq!(s.secondary.unwrap().utilization, 33_495_000);
    let neg = obj(vec![("rateLimits", obj(vec![("primary", obj(vec![("usedPercent", num(-3))]))]))]);
    assert_eq!(snapshot_from_result(&neg).unwrap().primary.unwrap().utilization, 0);
}

#[test]
fn window_without_percent_is_dropped() {
    let v = obj(vec![(
        "rateLimits",
        obj(vec![
            ("primary", obj(vec![("usedPercent", text("25")), ("windowDurationMins", num(300))])),
            ("secondary", num(4)),
        ]),
    )]);
    let s = snapshot_from_result(&v).unwrap();
    assert!(s.primary.is_none());
    assert!(s.secondary.is_none());
}

#[test]
fn credits_flags_default_to_false() {
    let v = obj(vec![("rateLimits", obj(vec![("credits", obj(vec![("balance", num(5))]))]))]);
    let c = snapshot_from_result(&v).unwrap().credits.unwrap();
    assert!(!c.has_credits);
    assert!(!c.unlimited);
    assert_eq!(c.balance, None);
}

#[test]
fn reset_instant_kept_when_given() {
    let v = obj(vec![(
        "rateLimits",
        obj(vec![("primary", obj(vec![("usedPercent", num(5)), ("resetsAt", num(1779459394))]))]),
    )]);
    let w = snapshot_from_result(&v).unwrap().primary.unwrap();
    assert_eq!(w.resets_at.unwrap().timestamp(), 1779459394);
    assert_eq!(w.duration_minutes, None);
}

#[test]
fn focus_prefers_known_duration_and_primary_on_tie() {
    let v = obj(vec![(
        "rateLimits",
        obj(vec![
            ("primary", obj(vec![("usedPercent", num(5))])),
            ("secondary", obj(vec![("usedPercent", num(7)), ("windowDurationMins", num(10080))])),
        ]),
    )]);
    let s = snapshot_from_result(&v).unwrap();
    assert_eq!(s.focus_window().unwrap().utilization, 7_000_000);
    assert_eq!(s.windows().len(), 2);
    let tie = obj(vec![(
        "rateLimits",
        obj(vec![
            ("primary", obj(vec![("usedPercent", num(5)), ("windowDurationMins", num(300))])),
            ("secondary", obj(vec![("usedPercent", num(7)), ("windowDurationMins", num(300))])),
        ]),
    )]);
    assert_eq!(snapshot_from_result(&tie).unwrap().focus_window().unwrap().utilization, 5_000_000);
}

#[test]
fn reply_with_other_id_is_skipped() {
    let msg = obj(vec![("id", num(1)), ("result", obj(vec![]))]);
    assert!(matches!(classify_reply(msg, 2), Reply::Skip));
    let no_id = obj(vec![("method", text("note"))]);
    assert!(matches!(classify_reply(no_id, 2), Reply::Skip));
}

#[test]
fn reply_error_carries_message() {
    let msg = obj(vec![("id", num(2)), ("error", obj(vec![("message", text("not logged in"))]))]);
    match classify_reply(msg, 2) {
        Reply::Failed(e) => assert_eq!(e, "codex app-server: not logged in"),
        other => panic!("unexpected {other:?}"),
    }
    let bare = obj(vec![("id", num(2)), ("error", num(3))]);
    match classify_reply(bare, 2) {
        Reply::Failed(e) => assert_eq!(e, "codex app-server: unknown app-server error"),
        other => panic!("unexpected {other:?}"),
    }
}

#[test]
fn reply_result_is_answered_or_missing() {
    let msg = obj(vec![("id", num(2)), ("result", obj(vec![("rateLimits", Json::Null)]))]);
    match classify_reply(msg, 2) {
        Reply::Answered(Json::Object(m)) => assert_eq!(m[0].0, "rateLimits"),
        other => panic!("unexpected {other:?}"),
    }
    let empty = obj(vec![("id", num(-7))]);
    match classify_reply(empty, -7) {
        Reply::Failed(e) => assert_eq!(e, "codex app-server response -7 had no result"),
        other => panic!("unexpected {other:?}"),
    }
}
