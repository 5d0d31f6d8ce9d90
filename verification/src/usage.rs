//! The usage snapshot read from `account/rateLimits/read`, and the reading
//! of app-server replies.
use vstd::prelude::*;
use vstd::string::StringExecFns;

use crate::clock::{utc_timestamp_valid, UtcTime};
use crate::json::{
    as_bool, as_i64, as_percent, as_text, as_u64, field, field_of, get_bool, get_i64,
    get_percent, get_text, get_u64, Json,
};
use crate::text::{int_dec, int_text};

verus! {

/// One quota window. `utilization` is the share used, in millionths of a
/// percent (0..=100_000_000).
#[derive(Copy, Clone, Debug)]
pub struct WindowUsage {
    pub utilization: u32,
    pub duration_minutes: Option<u64>,
    pub resets_at: Option<UtcTime>,
}

/// Credit balance, when the backend reports it.
#[derive(Clone, Debug)]
pub struct Credits {
    pub has_credits: bool,
    pub unlimited: bool,
    pub balance: Option<String>,
}

/// What the app-server reported for the account.
#[derive(Clone, Debug)]
pub struct Snapshot {
    pub primary: Option<WindowUsage>,
    pub secondary: Option<WindowUsage>,
    pub credits: Option<Credits>,
    pub plan_type: Option<String>,
    pub limit_id: Option<String>,
    pub reset_credits_available: Option<u64>,
}

/// The characters of an optional string.
pub open spec fn opt_view(s: Option<String>) -> Option<Seq<char>> {
    match s {
        Some(t) => Some(t@),
        None => None,
    }
}

/// A window's position in the ordering by duration; an unknown duration
/// sorts last.
pub open spec fn duration_key(w: WindowUsage) -> u64 {
    match w.duration_minutes {
        Some(d) => d,
        None => u64::MAX,
    }
}

/// The window to watch: the shortest one, the primary on a tie.
pub open spec fn focus_of(primary: Option<WindowUsage>, secondary: Option<WindowUsage>) -> Option<
    WindowUsage,
> {
    match (primary, secondary) {
        (Some(p), Some(s)) => if duration_key(s) < duration_key(p) {
            Some(s)
        } else {
            Some(p)
        },
        (Some(p), None) => Some(p),
        (None, s) => s,
    }
}

/// The windows present, primary first.
pub open spec fn windows_of(primary: Option<WindowUsage>, secondary: Option<WindowUsage>) -> Seq<
    WindowUsage,
> {
    match (primary, secondary) {
        (Some(p), Some(s)) => seq![p, s],
        (Some(p), None) => seq![p],
        (None, Some(s)) => seq![s],
        (None, None) => Seq::empty(),
    }
}

impl Snapshot {
    /// The window whose percentage drives the icon and the notifications:
    /// the one with the shortest duration (an unknown duration counts as the
    /// longest), the primary when both tie.
    pub fn focus_window(&self) -> (r: Option<&WindowUsage>)
        ensures
            match r {
                Some(w) => focus_of(self.primary, self.secondary) == Some(*w),
                None => focus_of(self.primary, self.secondary) is None,
            },
    {
        match (&self.primary, &self.secondary) {
            (Some(p), Some(s)) => {
                let kp = match p.duration_minutes {
                    Some(d) => d,
                    None => u64::MAX,
                };
                let ks = match s.duration_minutes {
                    Some(d) => d,
                    None => u64::MAX,
                };
                if ks < kp {
                    Some(s)
                } else {
                    Some(p)
                }
            },
            (Some(p), None) => Some(p),
            (None, Some(s)) => Some(s),
            (None, None) => None,
        }
    }

    /// The windows present, primary first.
    pub fn windows(&self) -> (r: Vec<WindowUsage>)
        ensures
            r@ == windows_of(self.primary, self.secondary),
    {
        let mut r = Vec::new();
        if let Some(p) = self.primary {
            r.push(p);
        }
        if let Some(s) = self.secondary {
            r.push(s);
        }
        assert(r@ =~= windows_of(self.primary, self.secondary));
        r
    }
}

/// The reset instant that a `resetsAt` timestamp denotes, when it has one.
pub open spec fn instant_of(ts: Option<i64>) -> Option<UtcTime> {
    match ts {
        Some(t) => if utc_timestamp_valid(t) {
            Some(UtcTime::at(t))
        } else {
            None
        },
        None => None,
    }
}

/// The window that a JSON value describes: an object with a numeric
/// `usedPercent` (clamped to 0..=100), an optional integer
/// `windowDurationMins` and an optional `resetsAt` Unix timestamp.
pub open spec fn window_of(value: Option<Json>) -> Option<WindowUsage> {
    match value {
        Some(Json::Object(m)) => match as_percent(field_of(value, "usedPercent"@)) {
            Some(u) => Some(
                WindowUsage {
                    utilization: u,
                    duration_minutes: as_u64(field_of(value, "windowDurationMins"@)),
                    resets_at: instant_of(as_i64(field_of(value, "resetsAt"@))),
                },
            ),
            None => None,
        },
        _ => None,
    }
}

/// The credits that a JSON value describes, as (has credits, unlimited,
/// balance); missing flags read as false.
pub open spec fn credits_of(value: Option<Json>) -> Option<(bool, bool, Option<Seq<char>>)> {
    match value {
        Some(Json::Object(m)) => Some(
            (
                as_bool(field_of(value, "hasCredits"@)) == Some(true),
                as_bool(field_of(value, "unlimited"@)) == Some(true),
                as_text(field_of(value, "balance"@)),
            ),
        ),
        _ => None,
    }
}

/// Credits as (has credits, unlimited, balance).
pub open spec fn credits_view(c: Option<Credits>) -> Option<(bool, bool, Option<Seq<char>>)> {
    match c {
        Some(c) => Some((c.has_credits, c.unlimited, opt_view(c.balance))),
        None => None,
    }
}

/// The rate-limit object of a reply: `rateLimitsByLimitId.codex` when it is
/// there and not null, else `rateLimits`.
pub open spec fn rate_source(result: Json) -> Option<Json> {
    match field_of(field(result, "rateLimitsByLimitId"@), "codex"@) {
        Some(Json::Null) => field(result, "rateLimits"@),
        Some(v) => Some(v),
        None => field(result, "rateLimits"@),
    }
}

fn parse_window(value: Option<&Json>) -> (r: Option<WindowUsage>)
    ensures
        r == window_of(match value { Some(v) => Some(*v), None => None }),
{
    match value {
        Some(v) => match v {
            Json::Object(_) => {
                let utilization = match get_percent(v.get("usedPercent")) {
                    Some(u) => u,
                    None => return None,
                };
                let duration_minutes = get_u64(v.get("windowDurationMins"));
                let resets_at = match get_i64(v.get("resetsAt")) {
                    Some(ts) => UtcTime::from_timestamp(ts),
                    None => None,
                };
                Some(WindowUsage { utilization, duration_minutes, resets_at })
            },
            _ => None,
        },
        None => None,
    }
}

fn parse_credits(value: Option<&Json>) -> (r: Option<Credits>)
    ensures
        credits_view(r) == credits_of(match value { Some(v) => Some(*v), None => None }),
{
    match value {
        Some(v) => match v {
            Json::Object(_) => {
                let has_credits = match get_bool(v.get("hasCredits")) {
                    Some(b) => b,
                    None => false,
                };
                let unlimited = match get_bool(v.get("unlimited")) {
                    Some(b) => b,
                    None => false,
                };
                let balance = get_text(v.get("balance"));
                Some(Credits { has_credits, unlimited, balance })
            },
            _ => None,
        },
        None => None,
    }
}

/// Reads the snapshot out of the result of `account/rateLimits/read`.
/// Fails exactly when the reply has no rate-limit object.
pub fn snapshot_from_result(result: &Json) -> (r: Result<Snapshot, String>)
    ensures
        match r {
            Err(e) => rate_source(*result) is None
                && e@ == "rateLimits missing from account/rateLimits/read"@,
            Ok(s) => match rate_source(*result) {
                Some(rate) => {
                    &&& s.primary == window_of(field(rate, "primary"@))
                    &&& s.secondary == window_of(field(rate, "secondary"@))
                    &&& credits_view(s.credits) == credits_of(field(rate, "credits"@))
                    &&& opt_view(s.plan_type) == as_text(field(rate, "planType"@))
                    &&& opt_view(s.limit_id) == as_text(field(rate, "limitId"@))
                    &&& s.reset_credits_available == as_u64(
                        field_of(field(*result, "rateLimitResetCredits"@), "availableCount"@),
                    )
                },
                None => false,
            },
        },
{
    let by_id = match result.get("rateLimitsByLimitId") {
        Some(m) => match m {
            Json::Object(_) => m.get("codex"),
            _ => None,
        },
        None => None,
    };
    let by_id = match by_id {
        Some(Json::Null) => None,
        other => other,
    };
    let rate = match by_id {
        Some(v) => v,
        None => match result.get("rateLimits") {
            Some(v) => v,
            None => {
                return Err(String::from_str("rateLimits missing from account/rateLimits/read"));
            },
        },
    };
    let reset_credits_available = match result.get("rateLimitResetCredits") {
        Some(v) => get_u64(v.get("availableCount")),
        None => None,
    };
    Ok(
        Snapshot {
            primary: parse_window(rate.get("primary")),
            secondary: parse_window(rate.get("secondary")),
            credits: parse_credits(rate.get("credits")),
            plan_type: get_text(rate.get("planType")),
            limit_id: get_text(rate.get("limitId")),
            reset_credits_available,
        },
    )
}

/// What one message from the app-server means for a request awaiting a
/// reply.
#[derive(Debug)]
pub enum Reply {
    /// Not the reply awaited: keep reading.
    Skip,
    /// The request failed, with this message.
    Failed(String),
    /// The request's result.
    Answered(Json),
}

/// The message text of an app-server error object.
pub open spec fn error_message(err: Json) -> Seq<char> {
    match as_text(field(err, "message"@)) {
        Some(t) => t,
        None => "unknown app-server error"@,
    }
}

/// Classifies a message read while waiting for the reply with id
/// `wanted_id`: another id (or none) is skipped; an `error` member fails
/// with its message; otherwise the `result` member is the answer, and its
/// absence a failure.
pub fn classify_reply(msg: Json, wanted_id: i64) -> (r: Reply)
    ensures
        as_i64(field(msg, "id"@)) != Some(wanted_id) ==> r is Skip,
        as_i64(field(msg, "id"@)) == Some(wanted_id) ==> match field(msg, "error"@) {
            Some(err) => r matches Reply::Failed(e) && e@ == "codex app-server: "@
                + error_message(err),
            None => match field(msg, "result"@) {
                Some(v) => r == Reply::Answered(v),
                None => r matches Reply::Failed(e) && e@ == "codex app-server response "@
                    + int_dec(wanted_id as int) + " had no result"@,
            },
        },
{
    match get_i64(msg.get("id")) {
        Some(id) => {
            if id != wanted_id {
                return Reply::Skip;
            }
        },
        None => {
            return Reply::Skip;
        },
    }
    if let Some(err) = msg.get("error") {
        let mut text = String::from_str("codex app-server: ");
        match get_text(err.get("message")) {
            Some(m) => text.append(m.as_str()),
            None => text.append("unknown app-server error"),
        }
        return Reply::Failed(text);
    }
    match msg.take_field("result") {
        Some(v) => Reply::Answered(v),
        None => {
            let mut text = String::from_str("codex app-server response ");
            let id_text = int_text(wanted_id);
            text.append(id_text.as_str());
            text.append(" had no result");
            Reply::Failed(text)
        },
    }
}

} // verus!
