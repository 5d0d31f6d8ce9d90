//! Properties of the library that hold of all inputs or across queries.
use vstd::prelude::*;

use crate::i18n::{tr_text, Lang};
use crate::text::{dec, lemma_dec_injective};
use crate::json::{field, field_of, Json};
use crate::state::{
    alerts, crosses, dropped, error_tooltip, first_of, label_text, lemma_focus_first, notes_view, ordered,
    renders, reset_msg, threshold_msg, tooltip_text, AppState, Output, TOOLTIP_MAX,
};
use crate::usage::{
    credits_of, duration_key, focus_of, rate_source, window_of, Snapshot, WindowUsage,
};
use crate::clock::{clock_nanos, minutes_left, valid_reading, UtcTime};
use crate::icon::ring_color;
use crate::state::tooltip_lines;

verus! {

/// Every tooltip, after a snapshot or after an error, fits the tray's limit
/// of 126 characters.
pub proof fn law_tooltip_fits(
    lang: crate::i18n::Lang,
    snap: Snapshot,
    primary_reset: Option<Seq<char>>,
    secondary_reset: Option<Seq<char>>,
    err: Seq<char>,
)
    ensures
        tooltip_text(lang, snap, primary_reset, secondary_reset).len() <= TOOLTIP_MAX,
        error_tooltip(lang, err).len() <= TOOLTIP_MAX,
{
}

/// The watched window is one of the reported windows and none is shorter;
/// there is one whenever a window was reported.
pub proof fn law_focus_is_shortest(primary: Option<WindowUsage>, secondary: Option<WindowUsage>)
    ensures
        focus_of(primary, secondary) is None <==> (primary is None && secondary is None),
        focus_of(primary, secondary) matches Some(f) ==> {
            &&& (f == primary->0 && primary is Some) || (f == secondary->0 && secondary is Some)
            &&& primary matches Some(p) ==> duration_key(f) <= duration_key(p)
            &&& secondary matches Some(s) ==> duration_key(f) <= duration_key(s)
        },
{
}

/// Notifications are empty when the alert rule has none to give.
proof fn lemma_no_alerts(n: Seq<(String, String)>)
    requires
        notes_view(n) == Seq::<(Seq<char>, Seq<char>)>::empty(),
    ensures
        n.len() == 0,
{
    assert(notes_view(n).len() == n.len());
}

/// The first sample after start raises no notification.
pub proof fn law_first_sample_is_silent(
    old: AppState,
    new: AppState,
    snap: Snapshot,
    primary_reset: Option<Seq<char>>,
    secondary_reset: Option<Seq<char>>,
    out: Output,
)
    requires
        old.last_util() is None,
        renders(old, new, snap, primary_reset, secondary_reset, out),
    ensures
        out.notifications@.len() == 0,
{
    assert(alerts(
        old.config(),
        old.language(),
        old.last_util(),
        old.last_duration(),
        first_of(ordered(snap, primary_reset, secondary_reset)),
    ) =~= Seq::empty());
    lemma_no_alerts(out.notifications@);
}

/// The same snapshot taken in twice in a row: the second time raises no
/// notification, whatever reset texts go with it.
pub proof fn law_repeat_is_silent(
    s0: AppState,
    s1: AppState,
    s2: AppState,
    snap: Snapshot,
    primary_reset1: Option<Seq<char>>,
    secondary_reset1: Option<Seq<char>>,
    out1: Output,
    primary_reset2: Option<Seq<char>>,
    secondary_reset2: Option<Seq<char>>,
    out2: Output,
)
    requires
        renders(s0, s1, snap, primary_reset1, secondary_reset1, out1),
        renders(s1, s2, snap, primary_reset2, secondary_reset2, out2),
    ensures
        out2.notifications@.len() == 0,
{
    lemma_focus_first(snap, primary_reset1, secondary_reset1);
    lemma_focus_first(snap, primary_reset2, secondary_reset2);
    let focus = first_of(ordered(snap, primary_reset2, secondary_reset2));
    if let Some(f) = focus {
        let u = f.0.utilization;
        assert(!crosses(s1.config().notify_thresholds@, u, u));
        assert(!dropped(u, u));
    }
    assert(alerts(s1.config(), s1.language(), s1.last_util(), s1.last_duration(), focus)
        =~= Seq::empty());
    lemma_no_alerts(out2.notifications@);
}

/// A notification is raised only for the same window as the last sample,
/// when a threshold was crossed or, with reset notices on, the share
/// dropped by more than five points; crossing several thresholds at once
/// gives one notification, so there are never more than two.
pub proof fn law_notifications_have_cause(
    old: AppState,
    new: AppState,
    snap: Snapshot,
    primary_reset: Option<Seq<char>>,
    secondary_reset: Option<Seq<char>>,
    out: Output,
)
    requires
        renders(old, new, snap, primary_reset, secondary_reset, out),
        out.notifications@.len() > 0,
    ensures
        focus_of(snap.primary, snap.secondary) matches Some(w) && old.last_util() matches Some(
            prev,
        ) && old.last_duration() == w.duration_minutes && (crosses(
            old.config().notify_thresholds@,
            prev,
            w.utilization,
        ) || (old.config().notify_on_reset && dropped(prev, w.utilization))),
        out.notifications@.len() <= 2,
{
    lemma_focus_first(snap, primary_reset, secondary_reset);
    let focus = first_of(ordered(snap, primary_reset, secondary_reset));
    assert(notes_view(out.notifications@).len() == out.notifications@.len());
}

/// Crossing a threshold in the watched window, since the last sample of
/// the same window, is announced first, with the share and the window's
/// reset text.
pub proof fn law_crossing_is_announced(
    old: AppState,
    new: AppState,
    snap: Snapshot,
    primary_reset: Option<Seq<char>>,
    secondary_reset: Option<Seq<char>>,
    out: Output,
    prev: u32,
)
    requires
        renders(old, new, snap, primary_reset, secondary_reset, out),
        old.last_util() == Some(prev),
        first_of(ordered(snap, primary_reset, secondary_reset)) matches Some(f)
            && f.0.duration_minutes == old.last_duration() && crosses(
            old.config().notify_thresholds@,
            prev,
            f.0.utilization,
        ),
    ensures
        out.notifications@.len() >= 1,
        out.notifications@[0].0@ == tr_text(old.language(), "notif_title"@),
        out.notifications@[0].1@ == threshold_msg(
            old.language(),
            (first_of(ordered(snap, primary_reset, secondary_reset))->0).0,
            (first_of(ordered(snap, primary_reset, secondary_reset))->0).1,
        ),
{
    assert(notes_view(out.notifications@).len() == out.notifications@.len());
    assert(notes_view(out.notifications@)[0] == (
        out.notifications@[0].0@,
        out.notifications@[0].1@,
    ));
}

/// With reset notices on, a drop of more than five points in the watched
/// window, since the last sample of the same window, announces a new
/// window last.
pub proof fn law_drop_is_announced(
    old: AppState,
    new: AppState,
    snap: Snapshot,
    primary_reset: Option<Seq<char>>,
    secondary_reset: Option<Seq<char>>,
    out: Output,
    prev: u32,
    w: WindowUsage,
)
    requires
        renders(old, new, snap, primary_reset, secondary_reset, out),
        old.last_util() == Some(prev),
        old.config().notify_on_reset,
        focus_of(snap.primary, snap.secondary) == Some(w),
        w.duration_minutes == old.last_duration(),
        dropped(prev, w.utilization),
    ensures
        out.notifications@.len() >= 1,
        out.notifications@.last().0@ == tr_text(old.language(), "notif_title"@),
        out.notifications@.last().1@ == reset_msg(old.language(), w),
{
    lemma_focus_first(snap, primary_reset, secondary_reset);
    let n = out.notifications@;
    assert(notes_view(n).len() == n.len());
    assert(notes_view(n)[n.len() - 1] == (n.last().0@, n.last().1@));
}

/// After a snapshot, the memory holds the watched window's share and
/// duration; without a window it is unchanged.
pub proof fn law_memory_follows_focus(
    old: AppState,
    new: AppState,
    snap: Snapshot,
    primary_reset: Option<Seq<char>>,
    secondary_reset: Option<Seq<char>>,
    out: Output,
)
    requires
        renders(old, new, snap, primary_reset, secondary_reset, out),
    ensures
        match focus_of(snap.primary, snap.secondary) {
            Some(w) => new.last_util() == Some(w.utilization) && new.last_duration()
                == w.duration_minutes && out.utilization == Some(w.utilization),
            None => new.last_util() == old.last_util() && new.last_duration()
                == old.last_duration() && out.utilization == Some(0u32),
        },
{
    lemma_focus_first(snap, primary_reset, secondary_reset);
}

/// The reply's `rateLimitsByLimitId.codex` bucket is used whenever it is
/// present and not null; otherwise `rateLimits` is.
pub proof fn law_codex_bucket_preferred(result: Json)
    ensures
        field_of(field(result, "rateLimitsByLimitId"@), "codex"@) matches Some(v) && !(v is Null)
            ==> rate_source(result) == field_of(field(result, "rateLimitsByLimitId"@), "codex"@),
        !(field_of(field(result, "rateLimitsByLimitId"@), "codex"@) matches Some(v) && !(
        v is Null)) ==> rate_source(result) == field(result, "rateLimits"@),
{
}

/// A parsed window's share lies between 0% and 100%.
pub proof fn law_share_in_range(value: Option<Json>)
    ensures
        window_of(value) matches Some(w) ==> w.utilization <= crate::json::FULL_SHARE,
{
}

/// The watched window does not depend on which window is reported as
/// primary: swapping them gives a window of the same duration, and the
/// same window when the durations differ.
pub proof fn law_focus_ignores_order(primary: Option<WindowUsage>, secondary: Option<WindowUsage>)
    ensures
        focus_of(primary, secondary) is Some <==> focus_of(secondary, primary) is Some,
        focus_of(primary, secondary) matches Some(f) ==> (focus_of(secondary, primary) matches Some(
            g,
        ) && duration_key(f) == duration_key(g)),
        (primary matches Some(p) && secondary matches Some(s) && duration_key(p) != duration_key(
            s,
        )) ==> focus_of(primary, secondary) == focus_of(secondary, primary),
{
}

/// The memory after a run of queries (`None` for a failed one): the share
/// and duration of the watched window of the latest snapshot that had one;
/// nothing before any.
pub open spec fn memory_after(steps: Seq<Option<Snapshot>>) -> (Option<u32>, Option<u64>)
    decreases steps.len(),
{
    if steps.len() == 0 {
        (None, None)
    } else {
        match steps.last() {
            Some(snap) => match focus_of(snap.primary, snap.secondary) {
                Some(w) => (Some(w.utilization), w.duration_minutes),
                None => memory_after(steps.drop_last()),
            },
            None => memory_after(steps.drop_last()),
        }
    }
}

/// Whether `states` follow each other through the queries `steps`: a
/// snapshot is rendered (with the given reset texts and output), a failure
/// leaves the state as it was.
pub open spec fn runs(
    states: Seq<AppState>,
    steps: Seq<Option<Snapshot>>,
    primary_resets: Seq<Option<Seq<char>>>,
    secondary_resets: Seq<Option<Seq<char>>>,
    outs: Seq<Output>,
) -> bool {
    &&& states.len() == steps.len() + 1
    &&& primary_resets.len() == steps.len()
    &&& secondary_resets.len() == steps.len()
    &&& outs.len() == steps.len()
    &&& forall|i: int|
        0 <= i < steps.len() ==> match #[trigger] steps[i] {
            Some(snap) => renders(
                states[i],
                states[i + 1],
                snap,
                primary_resets[i],
                secondary_resets[i],
                outs[i],
            ),
            None => states[i + 1] == states[i],
        }
}

/// Over any run of queries from a fresh tray, the memory is that of the
/// latest snapshot with a watched window, and the settings and language
/// never change.
pub proof fn law_memory_over_history(
    states: Seq<AppState>,
    steps: Seq<Option<Snapshot>>,
    primary_resets: Seq<Option<Seq<char>>>,
    secondary_resets: Seq<Option<Seq<char>>>,
    outs: Seq<Output>,
)
    requires
        runs(states, steps, primary_resets, secondary_resets, outs),
        states[0].last_util() is None,
        states[0].last_duration() is None,
    ensures
        (states.last().last_util(), states.last().last_duration()) == memory_after(steps),
        states.last().config() == states[0].config(),
        states.last().language() == states[0].language(),
    decreases steps.len(),
{
    if steps.len() > 0 {
        let n = steps.len() - 1;
        let prefix_states = states.drop_last();
        assert(runs(
            prefix_states,
            steps.drop_last(),
            primary_resets.drop_last(),
            secondary_resets.drop_last(),
            outs.drop_last(),
        )) by {
            assert forall|i: int| 0 <= i < n implies match #[trigger] steps.drop_last()[i] {
                Some(snap) => renders(
                    prefix_states[i],
                    prefix_states[i + 1],
                    snap,
                    primary_resets.drop_last()[i],
                    secondary_resets.drop_last()[i],
                    outs.drop_last()[i],
                ),
                None => prefix_states[i + 1] == prefix_states[i],
            } by {
                assert(steps.drop_last()[i] == steps[i]);
            }
        }
        law_memory_over_history(
            prefix_states,
            steps.drop_last(),
            primary_resets.drop_last(),
            secondary_resets.drop_last(),
            outs.drop_last(),
        );
        assert(prefix_states.last() == states[n]);
        assert(steps.last() == steps[n]);
        match steps[n] {
            Some(snap) => {
                lemma_focus_first(snap, primary_resets[n], secondary_resets[n]);
            },
            None => {},
        }
    }
}

/// Over any run of queries from a fresh tray, the next snapshot raises
/// exactly the notifications of the alert rule applied to the latest
/// snapshot that had a watched window: none when there is none or its
/// window had another duration; else one for a crossed threshold and one
/// for a drop of more than five points (with reset notices on).
pub proof fn law_notices_over_history(
    states: Seq<AppState>,
    steps: Seq<Option<Snapshot>>,
    primary_resets: Seq<Option<Seq<char>>>,
    secondary_resets: Seq<Option<Seq<char>>>,
    outs: Seq<Output>,
    snap: Snapshot,
    primary_reset: Option<Seq<char>>,
    secondary_reset: Option<Seq<char>>,
    next: AppState,
    out: Output,
)
    requires
        runs(states, steps, primary_resets, secondary_resets, outs),
        states[0].last_util() is None,
        states[0].last_duration() is None,
        renders(states.last(), next, snap, primary_reset, secondary_reset, out),
    ensures
        notes_view(out.notifications@) == alerts(
            states[0].config(),
            states[0].language(),
            memory_after(steps).0,
            memory_after(steps).1,
            first_of(ordered(snap, primary_reset, secondary_reset)),
        ),
{
    law_memory_over_history(states, steps, primary_resets, secondary_resets, outs);
}

/// The label a duration gets from the general rules: whole days, whole
/// hours, else minutes.
pub open spec fn general_label(m: u64) -> Seq<char> {
    if m % 1440 == 0 {
        dec((m / 1440) as nat) + "d"@
    } else if m % 60 == 0 {
        dec((m / 60) as nat) + "h"@
    } else {
        dec(m as nat) + "min"@
    }
}

/// "5h" and "7d" are what the general rules give 300 and 10080 minutes.
proof fn lemma_label_general(m: u64)
    ensures
        label_text(Some(m)) == general_label(m),
{
    reveal_strlit("5h");
    reveal_strlit("7d");
    reveal_strlit("h");
    reveal_strlit("d");
    if m == 300 {
        assert(dec(5) =~= seq!['5']);
        assert("5h"@ =~= dec(5) + "h"@);
    }
    if m == 10080 {
        assert(dec(7) =~= seq!['7']);
        assert("7d"@ =~= dec(7) + "d"@);
    }
}

/// Equal texts with the same ending are equal before it.
proof fn lemma_strip_suffix(x: Seq<char>, y: Seq<char>, suffix: Seq<char>)
    requires
        x + suffix == y + suffix,
    ensures
        x == y,
{
    assert((x + suffix).len() == x.len() + suffix.len());
    assert((y + suffix).len() == y.len() + suffix.len());
    assert(x.len() == y.len());
    assert(x =~= (x + suffix).take(x.len() as int));
    assert(y =~= (y + suffix).take(y.len() as int));
}

/// Distinct durations never share a label, and "quota" is only for an
/// unknown duration.
pub proof fn law_labels_distinct(a: Option<u64>, b: Option<u64>)
    requires
        label_text(a) == label_text(b),
    ensures
        a == b,
{
    reveal_strlit("d");
    reveal_strlit("h");
    reveal_strlit("min");
    reveal_strlit("quota");
    match (a, b) {
        (Some(x), Some(y)) => {
            lemma_label_general(x);
            lemma_label_general(y);
            let l = general_label(x);
            assert(l == general_label(y));
            if x % 1440 == 0 {
                assert(l.last() == 'd');
                assert(y % 1440 == 0);
                lemma_strip_suffix(dec((x / 1440) as nat), dec((y / 1440) as nat), "d"@);
                lemma_dec_injective((x / 1440) as nat, (y / 1440) as nat);
            } else if x % 60 == 0 {
                assert(l.last() == 'h');
                assert(y % 1440 != 0 && y % 60 == 0);
                lemma_strip_suffix(dec((x / 60) as nat), dec((y / 60) as nat), "h"@);
                lemma_dec_injective((x / 60) as nat, (y / 60) as nat);
            } else {
                assert(l.last() == 'n');
                assert(y % 1440 != 0 && y % 60 != 0);
                lemma_strip_suffix(dec(x as nat), dec(y as nat), "min"@);
                lemma_dec_injective(x as nat, y as nat);
            }
        },
        (Some(x), None) => {
            lemma_label_general(x);
            assert(label_text(b).last() == 'a');
        },
        (None, Some(y)) => {
            lemma_label_general(y);
            assert(label_text(a).last() == 'a');
        },
        (None, None) => {},
    }
}

/// The keys that `tr` knows.
pub open spec fn known_keys() -> Seq<Seq<char>> {
    seq!["loading"@, "refresh"@, "open_usage"@, "open_config"@, "quit"@, "used"@, "resets"@, "error"@, "notif_title"@, "credits"@, "unlimited"@, "reset_credits"@]
}

/// The known keys differ from each other and from every other key.
proof fn lemma_keys_distinct()
    ensures
        "loading"@ != "refresh"@,
        "loading"@ != "open_usage"@,
        "loading"@ != "open_config"@,
        "loading"@ != "quit"@,
        "loading"@ != "used"@,
        "loading"@ != "resets"@,
        "loading"@ != "error"@,
        "loading"@ != "notif_title"@,
        "loading"@ != "credits"@,
        "loading"@ != "unlimited"@,
        "loading"@ != "reset_credits"@,
        "refresh"@ != "open_usage"@,
        "refresh"@ != "open_config"@,
        "refresh"@ != "quit"@,
        "refresh"@ != "used"@,
        "refresh"@ != "resets"@,
        "refresh"@ != "error"@,
        "refresh"@ != "notif_title"@,
        "refresh"@ != "credits"@,
        "refresh"@ != "unlimited"@,
        "refresh"@ != "reset_credits"@,
        "open_usage"@ != "open_config"@,
        "open_usage"@ != "quit"@,
        "open_usage"@ != "used"@,
        "open_usage"@ != "resets"@,
        "open_usage"@ != "error"@,
        "open_usage"@ != "notif_title"@,
        "open_usage"@ != "credits"@,
        "open_usage"@ != "unlimited"@,
        "open_usage"@ != "reset_credits"@,
        "open_config"@ != "quit"@,
        "open_config"@ != "used"@,
        "open_config"@ != "resets"@,
        "open_config"@ != "error"@,
        "open_config"@ != "notif_title"@,
        "open_config"@ != "credits"@,
        "open_config"@ != "unlimited"@,
        "open_config"@ != "reset_credits"@,
        "quit"@ != "used"@,
        "quit"@ != "resets"@,
        "quit"@ != "error"@,
        "quit"@ != "notif_title"@,
        "quit"@ != "credits"@,
        "quit"@ != "unlimited"@,
        "quit"@ != "reset_credits"@,
        "used"@ != "resets"@,
        "used"@ != "error"@,
        "used"@ != "notif_title"@,
        "used"@ != "credits"@,
        "used"@ != "unlimited"@,
        "used"@ != "reset_credits"@,
        "resets"@ != "error"@,
        "resets"@ != "notif_title"@,
        "resets"@ != "credits"@,
        "resets"@ != "unlimited"@,
        "resets"@ != "reset_credits"@,
        "error"@ != "notif_title"@,
        "error"@ != "credits"@,
        "error"@ != "unlimited"@,
        "error"@ != "reset_credits"@,
        "notif_title"@ != "credits"@,
        "notif_title"@ != "unlimited"@,
        "notif_title"@ != "reset_credits"@,
        "credits"@ != "unlimited"@,
        "credits"@ != "reset_credits"@,
        "unlimited"@ != "reset_credits"@,
        known_keys()[0] == "loading"@,
        known_keys()[1] == "refresh"@,
        known_keys()[2] == "open_usage"@,
        known_keys()[3] == "open_config"@,
        known_keys()[4] == "quit"@,
        known_keys()[5] == "used"@,
        known_keys()[6] == "resets"@,
        known_keys()[7] == "error"@,
        known_keys()[8] == "notif_title"@,
        known_keys()[9] == "credits"@,
        known_keys()[10] == "unlimited"@,
        known_keys()[11] == "reset_credits"@,
        known_keys().len() == 12,
{
    reveal_strlit("loading");
    reveal_strlit("refresh");
    reveal_strlit("open_usage");
    reveal_strlit("open_config");
    reveal_strlit("quit");
    reveal_strlit("used");
    reveal_strlit("resets");
    reveal_strlit("error");
    reveal_strlit("notif_title");
    reveal_strlit("credits");
    reveal_strlit("unlimited");
    reveal_strlit("reset_credits");
    assert("loading"@[0] != "refresh"@[0]);
    assert("loading"@.len() != "open_usage"@.len());
    assert("loading"@.len() != "open_config"@.len());
    assert("loading"@.len() != "quit"@.len());
    assert("loading"@.len() != "used"@.len());
    assert("loading"@.len() != "resets"@.len());
    assert("loading"@.len() != "error"@.len());
    assert("loading"@.len() != "notif_title"@.len());
    assert("loading"@[0] != "credits"@[0]);
    assert("loading"@.len() != "unlimited"@.len());
    assert("loading"@.len() != "reset_credits"@.len());
    assert("refresh"@.len() != "open_usage"@.len());
    assert("refresh"@.len() != "open_config"@.len());
    assert("refresh"@.len() != "quit"@.len());
    assert("refresh"@.len() != "used"@.len());
    assert("refresh"@.len() != "resets"@.len());
    assert("refresh"@.len() != "error"@.len());
    assert("refresh"@.len() != "notif_title"@.len());
    assert("refresh"@[0] != "credits"@[0]);
    assert("refresh"@.len() != "unlimited"@.len());
    assert("refresh"@.len() != "reset_credits"@.len());
    assert("open_usage"@.len() != "open_config"@.len());
    assert("open_usage"@.len() != "quit"@.len());
    assert("open_usage"@.len() != "used"@.len());
    assert("open_usage"@.len() != "resets"@.len());
    assert("open_usage"@.len() != "error"@.len());
    assert("open_usage"@.len() != "notif_title"@.len());
    assert("open_usage"@.len() != "credits"@.len());
    assert("open_usage"@.len() != "unlimited"@.len());
    assert("open_usage"@.len() != "reset_credits"@.len());
    assert("open_config"@.len() != "quit"@.len());
    assert("open_config"@.len() != "used"@.len());
    assert("open_config"@.len() != "resets"@.len());
    assert("open_config"@.len() != "error"@.len());
    assert("open_config"@[0] != "notif_title"@[0]);
    assert("open_config"@.len() != "credits"@.len());
    assert("open_config"@.len() != "unlimited"@.len());
    assert("open_config"@.len() != "reset_credits"@.len());
    assert("quit"@[0] != "used"@[0]);
    assert("quit"@.len() != "resets"@.len());
    assert("quit"@.len() != "error"@.len());
    assert("quit"@.len() != "notif_title"@.len());
    assert("quit"@.len() != "credits"@.len());
    assert("quit"@.len() != "unlimited"@.len());
    assert("quit"@.len() != "reset_credits"@.len());
    assert("used"@.len() != "resets"@.len());
    assert("used"@.len() != "error"@.len());
    assert("used"@.len() != "notif_title"@.len());
    assert("used"@.len() != "credits"@.len());
    assert("used"@.len() != "unlimited"@.len());
    assert("used"@.len() != "reset_credits"@.len());
    assert("resets"@.len() != "error"@.len());
    assert("resets"@.len() != "notif_title"@.len());
    assert("resets"@.len() != "credits"@.len());
    assert("resets"@.len() != "unlimited"@.len());
    assert("resets"@.len() != "reset_credits"@.len());
    assert("error"@.len() != "notif_title"@.len());
    assert("error"@.len() != "credits"@.len());
    assert("error"@.len() != "unlimited"@.len());
    assert("error"@.len() != "reset_credits"@.len());
    assert("notif_title"@.len() != "credits"@.len());
    assert("notif_title"@.len() != "unlimited"@.len());
    assert("notif_title"@.len() != "reset_credits"@.len());
    assert("credits"@.len() != "unlimited"@.len());
    assert("credits"@.len() != "reset_credits"@.len());
    assert("unlimited"@.len() != "reset_credits"@.len());
    assert(known_keys()[0] == "loading"@);
    assert(known_keys()[1] == "refresh"@);
    assert(known_keys()[2] == "open_usage"@);
    assert(known_keys()[3] == "open_config"@);
    assert(known_keys()[4] == "quit"@);
    assert(known_keys()[5] == "used"@);
    assert(known_keys()[6] == "resets"@);
    assert(known_keys()[7] == "error"@);
    assert(known_keys()[8] == "notif_title"@);
    assert(known_keys()[9] == "credits"@);
    assert(known_keys()[10] == "unlimited"@);
    assert(known_keys()[11] == "reset_credits"@);
}

/// Each known key has a text in each language, and the two differ.
#[verifier::rlimit(50)]
proof fn lemma_texts_differ()
    ensures
        tr_text(Lang::Pt, "loading"@).len() > 0 && tr_text(Lang::En, "loading"@).len() > 0 && tr_text(Lang::Pt, "loading"@) != tr_text(Lang::En, "loading"@),
        tr_text(Lang::Pt, "refresh"@).len() > 0 && tr_text(Lang::En, "refresh"@).len() > 0 && tr_text(Lang::Pt, "refresh"@) != tr_text(Lang::En, "refresh"@),
        tr_text(Lang::Pt, "open_usage"@).len() > 0 && tr_text(Lang::En, "open_usage"@).len() > 0 && tr_text(Lang::Pt, "open_usage"@) != tr_text(Lang::En, "open_usage"@),
        tr_text(Lang::Pt, "open_config"@).len() > 0 && tr_text(Lang::En, "open_config"@).len() > 0 && tr_text(Lang::Pt, "open_config"@) != tr_text(Lang::En, "open_config"@),
        tr_text(Lang::Pt, "quit"@).len() > 0 && tr_text(Lang::En, "quit"@).len() > 0 && tr_text(Lang::Pt, "quit"@) != tr_text(Lang::En, "quit"@),
        tr_text(Lang::Pt, "used"@).len() > 0 && tr_text(Lang::En, "used"@).len() > 0 && tr_text(Lang::Pt, "used"@) != tr_text(Lang::En, "used"@),
        tr_text(Lang::Pt, "resets"@).len() > 0 && tr_text(Lang::En, "resets"@).len() > 0 && tr_text(Lang::Pt, "resets"@) != tr_text(Lang::En, "resets"@),
        tr_text(Lang::Pt, "error"@).len() > 0 && tr_text(Lang::En, "error"@).len() > 0 && tr_text(Lang::Pt, "error"@) != tr_text(Lang::En, "error"@),
        tr_text(Lang::Pt, "notif_title"@).len() > 0 && tr_text(Lang::En, "notif_title"@).len() > 0 && tr_text(Lang::Pt, "notif_title"@) != tr_text(Lang::En, "notif_title"@),
        tr_text(Lang::Pt, "credits"@).len() > 0 && tr_text(Lang::En, "credits"@).len() > 0 && tr_text(Lang::Pt, "credits"@) != tr_text(Lang::En, "credits"@),
        tr_text(Lang::Pt, "unlimited"@).len() > 0 && tr_text(Lang::En, "unlimited"@).len() > 0 && tr_text(Lang::Pt, "unlimited"@) != tr_text(Lang::En, "unlimited"@),
        tr_text(Lang::Pt, "reset_credits"@).len() > 0 && tr_text(Lang::En, "reset_credits"@).len() > 0 && tr_text(Lang::Pt, "reset_credits"@) != tr_text(Lang::En, "reset_credits"@),
{
    lemma_keys_distinct();
    reveal_strlit("Codex Usage — carregando…");
    reveal_strlit("Codex Usage — loading…");
    assert(tr_text(Lang::Pt, "loading"@) == "Codex Usage — carregando…"@);
    assert(tr_text(Lang::En, "loading"@) == "Codex Usage — loading…"@);
    assert("Codex Usage — carregando…"@.len() == 25 && "Codex Usage — loading…"@.len() == 22);
    assert("Codex Usage — carregando…"@.len() != "Codex Usage — loading…"@.len());
    reveal_strlit("Atualizar agora");
    reveal_strlit("Refresh now");
    assert(tr_text(Lang::Pt, "refresh"@) == "Atualizar agora"@);
    assert(tr_text(Lang::En, "refresh"@) == "Refresh now"@);
    assert("Atualizar agora"@.len() == 15 && "Refresh now"@.len() == 11);
    assert("Atualizar agora"@.len() != "Refresh now"@.len());
    reveal_strlit("Abrir página de uso do Codex");
    reveal_strlit("Open Codex usage page");
    assert(tr_text(Lang::Pt, "open_usage"@) == "Abrir página de uso do Codex"@);
    assert(tr_text(Lang::En, "open_usage"@) == "Open Codex usage page"@);
    assert("Abrir página de uso do Codex"@.len() == 28 && "Open Codex usage page"@.len() == 21);
    assert("Abrir página de uso do Codex"@.len() != "Open Codex usage page"@.len());
    reveal_strlit("Abrir configurações");
    reveal_strlit("Open settings");
    assert(tr_text(Lang::Pt, "open_config"@) == "Abrir configurações"@);
    assert(tr_text(Lang::En, "open_config"@) == "Open settings"@);
    assert("Abrir configurações"@.len() == 19 && "Open settings"@.len() == 13);
    assert("Abrir configurações"@.len() != "Open settings"@.len());
    reveal_strlit("Sair");
    reveal_strlit("Quit");
    assert(tr_text(Lang::Pt, "quit"@) == "Sair"@);
    assert(tr_text(Lang::En, "quit"@) == "Quit"@);
    assert("Sair"@.len() == 4 && "Quit"@.len() == 4);
    assert("Sair"@[0] != "Quit"@[0]);
    reveal_strlit("usado");
    reveal_strlit("used");
    assert(tr_text(Lang::Pt, "used"@) == "usado"@);
    assert(tr_text(Lang::En, "used"@) == "used"@);
    assert("usado"@.len() == 5 && "used"@.len() == 4);
    assert("usado"@.len() != "used"@.len());
    reveal_strlit("reseta");
    reveal_strlit("resets");
    assert(tr_text(Lang::Pt, "resets"@) == "reseta"@);
    assert(tr_text(Lang::En, "resets"@) == "resets"@);
    assert("reseta"@.len() == 6 && "resets"@.len() == 6);
    assert("reseta"@[5] != "resets"@[5]);
    reveal_strlit("erro ao consultar uso");
    reveal_strlit("error fetching usage");
    assert(tr_text(Lang::Pt, "error"@) == "erro ao consultar uso"@);
    assert(tr_text(Lang::En, "error"@) == "error fetching usage"@);
    assert("erro ao consultar uso"@.len() == 21 && "error fetching usage"@.len() == 20);
    assert("erro ao consultar uso"@.len() != "error fetching usage"@.len());
    reveal_strlit("Uso do Codex");
    reveal_strlit("Codex usage");
    assert(tr_text(Lang::Pt, "notif_title"@) == "Uso do Codex"@);
    assert(tr_text(Lang::En, "notif_title"@) == "Codex usage"@);
    assert("Uso do Codex"@.len() == 12 && "Codex usage"@.len() == 11);
    assert("Uso do Codex"@.len() != "Codex usage"@.len());
    reveal_strlit("créditos");
    reveal_strlit("credits");
    assert(tr_text(Lang::Pt, "credits"@) == "créditos"@);
    assert(tr_text(Lang::En, "credits"@) == "credits"@);
    assert("créditos"@.len() == 8 && "credits"@.len() == 7);
    assert("créditos"@.len() != "credits"@.len());
    reveal_strlit("ilimitados");
    reveal_strlit("unlimited");
    assert(tr_text(Lang::Pt, "unlimited"@) == "ilimitados"@);
    assert(tr_text(Lang::En, "unlimited"@) == "unlimited"@);
    assert("ilimitados"@.len() == 10 && "unlimited"@.len() == 9);
    assert("ilimitados"@.len() != "unlimited"@.len());
    reveal_strlit("resets disponíveis");
    reveal_strlit("resets available");
    assert(tr_text(Lang::Pt, "reset_credits"@) == "resets disponíveis"@);
    assert(tr_text(Lang::En, "reset_credits"@) == "resets available"@);
    assert("resets disponíveis"@.len() == 18 && "resets available"@.len() == 16);
    assert("resets disponíveis"@.len() != "resets available"@.len());
}

/// `tr` knows exactly the keys of `known_keys`: each has a non-empty text
/// in each language, the two texts differ, and any other key gives the
/// empty text in both.
pub proof fn law_tr_table(key: Seq<char>)
    ensures
        known_keys().contains(key) ==> {
            &&& tr_text(Lang::Pt, key).len() > 0
            &&& tr_text(Lang::En, key).len() > 0
            &&& tr_text(Lang::Pt, key) != tr_text(Lang::En, key)
        },
        !known_keys().contains(key) ==> tr_text(Lang::Pt, key).len() == 0 && tr_text(Lang::En, key).len() == 0,
{
    lemma_keys_distinct();
    lemma_texts_differ();
    reveal_strlit("");
    if known_keys().contains(key) {
        let i = choose|i: int| 0 <= i < known_keys().len() && known_keys()[i] == key;
        if i == 0 {
            assert(key == "loading"@);
        }
        if i == 1 {
            assert(key == "refresh"@);
        }
        if i == 2 {
            assert(key == "open_usage"@);
        }
        if i == 3 {
            assert(key == "open_config"@);
        }
        if i == 4 {
            assert(key == "quit"@);
        }
        if i == 5 {
            assert(key == "used"@);
        }
        if i == 6 {
            assert(key == "resets"@);
        }
        if i == 7 {
            assert(key == "error"@);
        }
        if i == 8 {
            assert(key == "notif_title"@);
        }
        if i == 9 {
            assert(key == "credits"@);
        }
        if i == 10 {
            assert(key == "unlimited"@);
        }
        if i == 11 {
            assert(key == "reset_credits"@);
        }
    } else {
        assert(known_keys()[0] != key);
        assert(known_keys()[1] != key);
        assert(known_keys()[2] != key);
        assert(known_keys()[3] != key);
        assert(known_keys()[4] != key);
        assert(known_keys()[5] != key);
        assert(known_keys()[6] != key);
        assert(known_keys()[7] != key);
        assert(known_keys()[8] != key);
        assert(known_keys()[9] != key);
        assert(known_keys()[10] != key);
        assert(known_keys()[11] != key);
    }
}

/// The minutes left in a reset text taken at a clock reading are the whole
/// minutes from the instant of that reading (`Ok((s, n))`: s seconds and n
/// nanoseconds after the epoch; `Err((s, n))`: that long before it) to the
/// reset: none when the reset is not later, else the `m` with
/// `m` minutes <= time left < `m + 1` minutes.
pub proof fn law_minutes_from_reading(at: UtcTime, reading: Result<(u64, u32), (u64, u32)>)
    requires
        valid_reading(reading),
    ensures
        reading matches Ok(d) ==> {
            let left = (at.secs() - d.0) * 1_000_000_000 - d.1;
            let m = minutes_left(at.secs(), clock_nanos(reading));
            &&& left <= 0 ==> m == 0
            &&& left > 0 ==> m * 60_000_000_000 <= left < (m + 1) * 60_000_000_000
        },
        reading matches Err(d) ==> {
            let left = (at.secs() + d.0) * 1_000_000_000 + d.1;
            let m = minutes_left(at.secs(), clock_nanos(reading));
            &&& left <= 0 ==> m == 0
            &&& left > 0 ==> m * 60_000_000_000 <= left < (m + 1) * 60_000_000_000
        },
{
    let d = at.secs() * 1_000_000_000 - clock_nanos(reading);
    if d > 0 {
        let m = d / 60_000_000_000;
        assert(m * 60_000_000_000 <= d < (m + 1) * 60_000_000_000) by (nonlinear_arith)
            requires
                d > 0,
                m == d / 60_000_000_000,
        ;
    }
}

/// The ring is gray on error; otherwise, with the yellow threshold at or
/// below the red one, it is red exactly from the red threshold on, amber
/// exactly from the yellow threshold up to the red one, and green exactly
/// below the yellow threshold (thresholds in whole percent, shares in
/// millionths of a percent).
pub proof fn law_ring_follows_thresholds(u: u32, yellow_at: u8, red_at: u8)
    requires
        yellow_at <= red_at,
    ensures
        ring_color(None, yellow_at, red_at) == seq![128u8, 128u8, 128u8, 255u8],
        (ring_color(Some(u), yellow_at, red_at) == seq![239u8, 68u8, 68u8, 255u8]) <==> u
            >= red_at * 1_000_000,
        (ring_color(Some(u), yellow_at, red_at) == seq![245u8, 158u8, 11u8, 255u8]) <==> (
        yellow_at * 1_000_000 <= u && u < red_at * 1_000_000),
        (ring_color(Some(u), yellow_at, red_at) == seq![16u8, 185u8, 129u8, 255u8]) <==> u
            < yellow_at * 1_000_000,
{
    let red = seq![239u8, 68u8, 68u8, 255u8];
    let amber = seq![245u8, 158u8, 11u8, 255u8];
    let green = seq![16u8, 185u8, 129u8, 255u8];
    assert(red[1] != amber[1] && red[1] != green[1] && amber[1] != green[1]);
}

/// Every configured threshold counts, the last as well as the first: the
/// share has crossed thresholds exactly when one of them lies above the
/// previous share and at or below the current one.
pub proof fn law_every_threshold_counts(thresholds: Seq<u8>, prev: u32, now: u32, i: int)
    ensures
        (0 <= i < thresholds.len() && prev < thresholds[i] * 1_000_000 && thresholds[i]
            * 1_000_000 <= now) ==> crosses(thresholds, prev, now),
        crosses(thresholds, prev, now) ==> exists|j: int|
            0 <= j < thresholds.len() && prev < #[trigger] thresholds[j] * 1_000_000
                && thresholds[j] * 1_000_000 <= now,
{
}

/// A crossing of any configured threshold, since the last sample of the
/// same watched window, is announced first, with the share and the
/// window's reset text.
pub proof fn law_threshold_crossing_is_announced(
    old: AppState,
    new: AppState,
    snap: Snapshot,
    primary_reset: Option<Seq<char>>,
    secondary_reset: Option<Seq<char>>,
    out: Output,
    prev: u32,
    i: int,
)
    requires
        renders(old, new, snap, primary_reset, secondary_reset, out),
        old.last_util() == Some(prev),
        first_of(ordered(snap, primary_reset, secondary_reset)) matches Some(f)
            && f.0.duration_minutes == old.last_duration() && 0 <= i
            < old.config().notify_thresholds@.len() && prev < old.config().notify_thresholds@[i]
            * 1_000_000 && old.config().notify_thresholds@[i] * 1_000_000 <= f.0.utilization,
    ensures
        out.notifications@.len() >= 1,
        out.notifications@[0].0@ == tr_text(old.language(), "notif_title"@),
        out.notifications@[0].1@ == threshold_msg(
            old.language(),
            (first_of(ordered(snap, primary_reset, secondary_reset))->0).0,
            (first_of(ordered(snap, primary_reset, secondary_reset))->0).1,
        ),
{
    let f = first_of(ordered(snap, primary_reset, secondary_reset))->0;
    law_every_threshold_counts(old.config().notify_thresholds@, prev, f.0.utilization, i);
    law_crossing_is_announced(old, new, snap, primary_reset, secondary_reset, out, prev);
}

/// The credit flags are read each from its own member: `unlimited` is set
/// exactly when the member "unlimited" is the boolean true, `has_credits`
/// exactly when "hasCredits" is; the balance is the text of "balance".
pub proof fn law_credit_flags(value: Json)
    requires
        value is Object,
    ensures
        credits_of(Some(value)) matches Some(c) && c.0 == (field(value, "hasCredits"@) == Some(
            Json::Bool(true),
        )) && c.1 == (field(value, "unlimited"@) == Some(Json::Bool(true))) && c.2 == match field(
            value,
            "balance"@,
        ) {
            Some(Json::Str(b)) => Some(b@),
            _ => None,
        },
{
}

/// The tooltip lists the available rate-limit resets exactly when there is
/// at least one: with `n >= 1` its lines are those without the count,
/// followed by "{resets available}: n"; with none or zero they are the
/// lines without the count.
pub proof fn law_reset_credits_shown(
    lang: Lang,
    snap: Snapshot,
    primary_reset: Option<Seq<char>>,
    secondary_reset: Option<Seq<char>>,
)
    ensures
        ({
            let without = tooltip_lines(
                lang,
                Snapshot { reset_credits_available: None, ..snap },
                primary_reset,
                secondary_reset,
            );
            &&& (snap.reset_credits_available matches Some(n) && n >= 1) ==> tooltip_lines(
                lang,
                snap,
                primary_reset,
                secondary_reset,
            ) == without.push(
                tr_text(lang, "reset_credits"@) + ": "@ + dec(
                    snap.reset_credits_available->0 as nat,
                ),
            )
            &&& (snap.reset_credits_available is None || snap.reset_credits_available == Some(
                0u64,
            )) ==> tooltip_lines(lang, snap, primary_reset, secondary_reset) == without
        }),
{
    let none = Snapshot { reset_credits_available: None, ..snap };
    assert(crate::state::ordered(none, primary_reset, secondary_reset) == crate::state::ordered(
        snap,
        primary_reset,
        secondary_reset,
    ));
    assert(crate::state::credits_line(lang, none) == crate::state::credits_line(lang, snap));
    if snap.reset_credits_available is Some && snap.reset_credits_available->0 >= 1 {
        let n = snap.reset_credits_available->0;
        assert(tooltip_lines(lang, snap, primary_reset, secondary_reset) =~= tooltip_lines(
            lang,
            none,
            primary_reset,
            secondary_reset,
        ).push(tr_text(lang, "reset_credits"@) + ": "@ + dec(n as nat)));
    } else {
        assert(tooltip_lines(lang, snap, primary_reset, secondary_reset) =~= tooltip_lines(
            lang,
            none,
            primary_reset,
            secondary_reset,
        ));
    }
}

} // verus!
