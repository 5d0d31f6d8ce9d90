//! Tooltip, notification thresholds and reset detection.
use vstd::prelude::*;
use vstd::string::StringExecFns;

use crate::clock::{fmt_reset, reset_form_for};
use crate::config::Config;
use crate::json::PER_PERCENT;
use crate::i18n::{by_lang, tr, tr_text, Lang};
use crate::text::{dec, dec_text, join_lines, joined, truncate, truncated, views};
use crate::usage::{duration_key, focus_of, opt_view, Snapshot, WindowUsage};

verus! {

/// Longest tooltip shown, in characters.
pub const TOOLTIP_MAX: usize = 126;

/// The label of a window by its duration: "5h", "7d", whole days as "{n}d",
/// whole hours as "{n}h", else "{n}min"; "quota" when the duration is
/// unknown.
pub open spec fn label_text(minutes: Option<u64>) -> Seq<char> {
    match minutes {
        Some(m) => if m == 300 {
            "5h"@
        } else if m == 10080 {
            "7d"@
        } else if m % 1440 == 0 {
            dec((m / 1440) as nat) + "d"@
        } else if m % 60 == 0 {
            dec((m / 60) as nat) + "h"@
        } else {
            dec(m as nat) + "min"@
        },
        None => "quota"@,
    }
}

/// Names a window by its duration.
pub fn window_label(minutes: Option<u64>) -> (r: String)
    ensures
        r@ == label_text(minutes),
{
    match minutes {
        Some(m) => if m == 300 {
            String::from_str("5h")
        } else if m == 10080 {
            String::from_str("7d")
        } else if m % 1440 == 0 {
            let mut s = dec_text(m / 1440);
            s.append("d");
            s
        } else if m % 60 == 0 {
            let mut s = dec_text(m / 60);
            s.append("h");
            s
        } else {
            let mut s = dec_text(m);
            s.append("min");
            s
        },
        None => String::from_str("quota"),
    }
}

/// A share in millionths of a percent, rounded to a whole percent with ties
/// to the even neighbour (as `{:.0}` formats it).
pub open spec fn whole_percent(units: u32) -> nat {
    let q = (units / PER_PERCENT) as nat;
    let r = units % PER_PERCENT;
    if r > PER_PERCENT / 2 || (r == PER_PERCENT / 2 && q % 2 == 1) {
        q + 1
    } else {
        q
    }
}

/// Rounds millionths of a percent to a whole percent, ties to even.
pub fn percent_of(units: u32) -> (r: u64)
    ensures
        r == whole_percent(units),
{
    let q = (units / PER_PERCENT) as u64;
    let r = units % PER_PERCENT;
    if r > PER_PERCENT / 2 || (r == PER_PERCENT / 2 && q % 2 == 1) {
        q + 1
    } else {
        q
    }
}

/// The reset text that goes with a window: the one given, when the window
/// has a reset instant.
pub open spec fn attach(w: WindowUsage, reset: Option<Seq<char>>) -> (WindowUsage, Option<Seq<char>>) {
    (w, if w.resets_at is Some { reset } else { None })
}

/// The windows of a snapshot with their reset texts, shortest duration
/// first (primary first on a tie).
pub open spec fn ordered(snap: Snapshot, primary_reset: Option<Seq<char>>, secondary_reset: Option<Seq<char>>) -> Seq<(WindowUsage, Option<Seq<char>>)> {
    match (snap.primary, snap.secondary) {
        (Some(p), Some(s)) => if duration_key(s) < duration_key(p) {
            seq![attach(s, secondary_reset), attach(p, primary_reset)]
        } else {
            seq![attach(p, primary_reset), attach(s, secondary_reset)]
        },
        (Some(p), None) => seq![attach(p, primary_reset)],
        (None, Some(s)) => seq![attach(s, secondary_reset)],
        (None, None) => Seq::empty(),
    }
}

/// The tooltip line of a window: "{label}: {pct}% {used}", then
/// " · {resets} {reset}" when there is a reset text.
pub open spec fn line_text(lang: Lang, w: WindowUsage, reset: Option<Seq<char>>) -> Seq<char> {
    let head = label_text(w.duration_minutes) + ": "@ + dec(whole_percent(w.utilization)) + "% "@
        + tr_text(lang, "used"@);
    match reset {
        Some(t) => head + " · "@ + tr_text(lang, "resets"@) + " "@ + t,
        None => head,
    }
}

/// The notification text for crossing a threshold in window `w`.
pub open spec fn threshold_msg(lang: Lang, w: WindowUsage, reset: Option<Seq<char>>) -> Seq<char> {
    let pct = dec(whole_percent(w.utilization));
    let label = label_text(w.duration_minutes);
    match (lang, reset) {
        (Lang::Pt, Some(r)) => "Você já usou "@ + pct + "% da janela "@ + label + ". Reseta "@ + r
            + "."@,
        (Lang::Pt, None) => "Você já usou "@ + pct + "% da janela "@ + label + "."@,
        (Lang::En, Some(r)) => "You've used "@ + pct + "% of the "@ + label + " window. Resets "@
            + r + "."@,
        (Lang::En, None) => "You've used "@ + pct + "% of the "@ + label + " window."@,
    }
}

/// The notification text for a new window after a reset.
pub open spec fn reset_msg(lang: Lang, w: WindowUsage) -> Seq<char> {
    let label = label_text(w.duration_minutes);
    match lang {
        Lang::Pt => "Nova janela "@ + label + " — cota novamente disponível."@,
        Lang::En => "New "@ + label + " window — quota available again."@,
    }
}

/// The line shown when no window was reported.
pub open spec fn unavailable_text(lang: Lang) -> Seq<char> {
    by_lang(lang, "Codex: limites indisponíveis"@, "Codex: limits unavailable"@)
}

/// The credits line, when there is one: unlimited credits, or the balance
/// when the account has credits and the balance is known.
pub open spec fn credits_line(lang: Lang, snap: Snapshot) -> Seq<Seq<char>> {
    match snap.credits {
        Some(c) => if c.unlimited {
            seq![tr_text(lang, "credits"@) + ": "@ + tr_text(lang, "unlimited"@)]
        } else if c.has_credits && c.balance is Some {
            seq![tr_text(lang, "credits"@) + ": "@ + c.balance->0@]
        } else {
            Seq::empty()
        },
        None => Seq::empty(),
    }
}

/// The line of available rate-limit resets, when there are any.
pub open spec fn reset_credits_line(lang: Lang, snap: Snapshot) -> Seq<Seq<char>> {
    match snap.reset_credits_available {
        Some(n) => if n > 0 {
            seq![tr_text(lang, "reset_credits"@) + ": "@ + dec(n as nat)]
        } else {
            Seq::empty()
        },
        None => Seq::empty(),
    }
}

/// All tooltip lines for a snapshot.
pub open spec fn tooltip_lines(lang: Lang, snap: Snapshot, primary_reset: Option<Seq<char>>, secondary_reset: Option<Seq<char>>) -> Seq<Seq<char>> {
    let ws = ordered(snap, primary_reset, secondary_reset);
    let window_lines = ws.map_values(|e: (WindowUsage, Option<Seq<char>>)| line_text(lang, e.0, e.1));
    let body = if ws.len() == 0 {
        seq![unavailable_text(lang)]
    } else {
        window_lines
    };
    body + credits_line(lang, snap) + reset_credits_line(lang, snap)
}

/// The tooltip for a snapshot: its lines joined by newlines, cut to
/// `TOOLTIP_MAX` characters.
pub open spec fn tooltip_text(lang: Lang, snap: Snapshot, primary_reset: Option<Seq<char>>, secondary_reset: Option<Seq<char>>) -> Seq<char> {
    truncated(joined(tooltip_lines(lang, snap, primary_reset, secondary_reset), "\n"@), TOOLTIP_MAX as nat)
}

/// The tooltip after a failed query.
pub open spec fn error_tooltip(lang: Lang, err: Seq<char>) -> Seq<char> {
    truncated("Codex: "@ + tr_text(lang, "error"@) + "\n"@ + err, TOOLTIP_MAX as nat)
}

/// Whether the share went from below some threshold to at least it.
pub open spec fn crosses(thresholds: Seq<u8>, prev: u32, now: u32) -> bool {
    exists|i: int|
        0 <= i < thresholds.len() && prev < #[trigger] thresholds[i] * PER_PERCENT && now
            >= thresholds[i] * PER_PERCENT
}

/// Whether the share dropped by more than five points.
pub open spec fn dropped(prev: u32, now: u32) -> bool {
    now + 5 * PER_PERCENT < prev
}

/// The notifications raised when `focus` follows a sample of `last_util`
/// in a window of duration `last_duration`: none unless the same window was
/// seen before; then one for a crossed threshold and one for a reset.
pub open spec fn alerts(cfg: Config, lang: Lang, last_util: Option<u32>, last_duration: Option<u64>, focus: Option<(WindowUsage, Option<Seq<char>>)>) -> Seq<(Seq<char>, Seq<char>)> {
    match (focus, last_util) {
        (Some((w, reset)), Some(prev)) => if last_duration == w.duration_minutes {
            let title = tr_text(lang, "notif_title"@);
            (if crosses(cfg.notify_thresholds@, prev, w.utilization) {
                seq![(title, threshold_msg(lang, w, reset))]
            } else {
                Seq::empty()
            }) + (if cfg.notify_on_reset && dropped(prev, w.utilization) {
                seq![(title, reset_msg(lang, w))]
            } else {
                Seq::empty()
            })
        } else {
            Seq::empty()
        },
        _ => Seq::empty(),
    }
}

/// The first element of a sequence, if any.
pub open spec fn first_of<A>(s: Seq<A>) -> Option<A> {
    if s.len() == 0 {
        None
    } else {
        Some(s[0])
    }
}

/// The notifications as pairs of character sequences.
pub open spec fn notes_view(n: Seq<(String, String)>) -> Seq<(Seq<char>, Seq<char>)> {
    n.map_values(|p: (String, String)| (p.0@, p.1@))
}

/// What the tray shows after a query.
pub struct Output {
    pub tooltip: String,
    /// Share used by the watched window, in millionths of a percent;
    /// `None` after an error (gray icon).
    pub utilization: Option<u32>,
    /// (title, body) pairs to show as notifications.
    pub notifications: Vec<(String, String)>,
}

/// The tray's memory between queries.
pub struct AppState {
    cfg: Config,
    lang: Lang,
    last_util: Option<u32>,
    last_duration: Option<u64>,
}

impl AppState {
    pub closed spec fn config(self) -> Config {
        self.cfg
    }

    pub closed spec fn language(self) -> Lang {
        self.lang
    }

    /// The share of the watched window at the last sample that had one.
    pub closed spec fn last_util(self) -> Option<u32> {
        self.last_util
    }

    /// The duration of the window of that sample.
    pub closed spec fn last_duration(self) -> Option<u64> {
        self.last_duration
    }
}

/// Whether `new` and `out` are what a query answered by `snap` gives from
/// `old`, with `primary_reset` and `secondary_reset` as the reset texts of
/// the two windows.
pub open spec fn renders(old: AppState, new: AppState, snap: Snapshot, primary_reset: Option<Seq<char>>, secondary_reset: Option<Seq<char>>, out: Output) -> bool {
    let lang = old.language();
    let focus = first_of(ordered(snap, primary_reset, secondary_reset));
    &&& new.config() == old.config()
    &&& new.language() == lang
    &&& out.tooltip@ == tooltip_text(lang, snap, primary_reset, secondary_reset)
    &&& out.utilization == Some(
        match focus {
            Some(f) => f.0.utilization,
            None => 0u32,
        },
    )
    &&& notes_view(out.notifications@) == alerts(
        old.config(),
        lang,
        old.last_util(),
        old.last_duration(),
        focus,
    )
    &&& match focus {
        Some(f) => new.last_util() == Some(f.0.utilization) && new.last_duration()
            == f.0.duration_minutes,
        None => new.last_util() == old.last_util() && new.last_duration() == old.last_duration(),
    }
}

/// The first of the ordered windows is the watched one.
pub proof fn lemma_focus_first(snap: Snapshot, primary_reset: Option<Seq<char>>, secondary_reset: Option<Seq<char>>)
    ensures
        match first_of(ordered(snap, primary_reset, secondary_reset)) {
            Some(f) => focus_of(snap.primary, snap.secondary) == Some(f.0),
            None => focus_of(snap.primary, snap.secondary) is None,
        },
{
}

fn reset_ref<'a>(w: &WindowUsage, reset: &'a Option<String>) -> (r: Option<&'a str>)
    ensures
        match r {
            Some(t) => attach(*w, opt_view(*reset)).1 == Some(t@),
            None => attach(*w, opt_view(*reset)).1 is None,
        },
{
    if w.resets_at.is_some() {
        match reset {
            Some(t) => Some(t.as_str()),
            None => None,
        }
    } else {
        None
    }
}

/// The characters of an optional string slice.
pub open spec fn ref_view(r: Option<&str>) -> Option<Seq<char>> {
    match r {
        Some(t) => Some(t@),
        None => None,
    }
}

fn window_line(lang: Lang, w: &WindowUsage, reset: Option<&str>) -> (r: String)
    ensures
        r@ == line_text(lang, *w, ref_view(reset)),
{
    let mut s = window_label(w.duration_minutes);
    s.append(": ");
    let pct = dec_text(percent_of(w.utilization));
    s.append(pct.as_str());
    s.append("% ");
    s.append(tr(lang, "used"));
    if let Some(t) = reset {
        s.append(" · ");
        s.append(tr(lang, "resets"));
        s.append(" ");
        s.append(t);
    }
    s
}

fn threshold_text(lang: Lang, w: &WindowUsage, reset: Option<&str>) -> (r: String)
    ensures
        r@ == threshold_msg(lang, *w, ref_view(reset)),
{
    let pct = dec_text(percent_of(w.utilization));
    let label = window_label(w.duration_minutes);
    let mut s;
    match lang {
        Lang::Pt => {
            s = String::from_str("Você já usou ");
            s.append(pct.as_str());
            s.append("% da janela ");
            s.append(label.as_str());
            match reset {
                Some(t) => {
                    s.append(". Reseta ");
                    s.append(t);
                    s.append(".");
                },
                None => s.append("."),
            }
        },
        Lang::En => {
            s = String::from_str("You've used ");
            s.append(pct.as_str());
            s.append("% of the ");
            s.append(label.as_str());
            match reset {
                Some(t) => {
                    s.append(" window. Resets ");
                    s.append(t);
                    s.append(".");
                },
                None => s.append(" window."),
            }
        },
    }
    s
}

fn reset_text(lang: Lang, w: &WindowUsage) -> (r: String)
    ensures
        r@ == reset_msg(lang, *w),
{
    let label = window_label(w.duration_minutes);
    let mut s;
    match lang {
        Lang::Pt => {
            s = String::from_str("Nova janela ");
            s.append(label.as_str());
            s.append(" — cota novamente disponível.");
        },
        Lang::En => {
            s = String::from_str("New ");
            s.append(label.as_str());
            s.append(" window — quota available again.");
        },
    }
    s
}

fn crossed(thresholds: &Vec<u8>, prev: u32, now: u32) -> (r: bool)
    ensures
        r == crosses(thresholds@, prev, now),
{
    let mut i: usize = 0;
    while i < thresholds.len()
        invariant
            i <= thresholds.len(),
            forall|j: int|
                0 <= j < i ==> !(prev < #[trigger] thresholds@[j] * PER_PERCENT && now
                    >= thresholds@[j] * PER_PERCENT),
        decreases thresholds.len() - i,
    {
        let t = thresholds[i] as u32;
        if prev < t * PER_PERCENT && now >= t * PER_PERCENT {
            assert(prev < thresholds@[i as int] * PER_PERCENT && now >= thresholds@[i as int]
                * PER_PERCENT);
            return true;
        }
        i = i + 1;
    }
    false
}

fn same_duration(a: Option<u64>, b: Option<u64>) -> (r: bool)
    ensures
        r == (a == b),
{
    match (a, b) {
        (Some(x), Some(y)) => x == y,
        (None, None) => true,
        _ => false,
    }
}

fn unavailable_line(lang: Lang) -> (r: String)
    ensures
        r@ == unavailable_text(lang),
{
    match lang {
        Lang::Pt => String::from_str("Codex: limites indisponíveis"),
        Lang::En => String::from_str("Codex: limits unavailable"),
    }
}

fn labelled(key: &str, lang: Lang, value: &str) -> (r: String)
    ensures
        r@ == tr_text(lang, key@) + ": "@ + value@,
{
    let mut s = String::from_str(tr(lang, key));
    s.append(": ");
    s.append(value);
    s
}

/// The ordered windows as the spec describes them.
pub open spec fn entries_view(ws: Seq<(WindowUsage, Option<&str>)>) -> Seq<(WindowUsage, Option<Seq<char>>)> {
    ws.map_values(|e: (WindowUsage, Option<&str>)| (e.0, ref_view(e.1)))
}

fn ordered_windows<'a>(snap: &Snapshot, primary_reset: &'a Option<String>, secondary_reset: &'a Option<String>) -> (r: Vec<(WindowUsage, Option<&'a str>)>)
    ensures
        entries_view(r@) == ordered(*snap, opt_view(*primary_reset), opt_view(*secondary_reset)),
{
    let mut ws: Vec<(WindowUsage, Option<&'a str>)> = Vec::new();
    match (&snap.primary, &snap.secondary) {
        (Some(p), Some(s)) => {
            let kp = match p.duration_minutes {
                Some(d) => d,
                None => u64::MAX,
            };
            let ks = match s.duration_minutes {
                Some(d) => d,
                None => u64::MAX,
            };
            if ks < kp {
                ws.push((*s, reset_ref(s, secondary_reset)));
                ws.push((*p, reset_ref(p, primary_reset)));
            } else {
                ws.push((*p, reset_ref(p, primary_reset)));
                ws.push((*s, reset_ref(s, secondary_reset)));
            }
        },
        (Some(p), None) => {
            ws.push((*p, reset_ref(p, primary_reset)));
        },
        (None, Some(s)) => {
            ws.push((*s, reset_ref(s, secondary_reset)));
        },
        (None, None) => {},
    }
    assert(entries_view(ws@) =~= ordered(*snap, opt_view(*primary_reset), opt_view(*secondary_reset)));
    ws
}

/// Whether `reset` has the form of a reset text of the window's reset
/// instant (`reset_form_for`), when the window has one.
pub open spec fn reset_described(w: Option<WindowUsage>, reset: Option<Seq<char>>) -> bool {
    match w {
        Some(x) => match x.resets_at {
            Some(at) => match reset {
                Some(t) => reset_form_for(t, at),
                None => false,
            },
            None => true,
        },
        None => true,
    }
}

/// Whether the texts given for the two windows have the form of reset
/// texts of their reset instants, wherever a window has one.
pub open spec fn resets_described(snap: Snapshot, primary_reset: Option<Seq<char>>, secondary_reset: Option<Seq<char>>) -> bool {
    &&& reset_described(snap.primary, primary_reset)
    &&& reset_described(snap.secondary, secondary_reset)
}

fn reset_text_of(w: &Option<WindowUsage>) -> (r: Option<String>)
    ensures
        reset_described(*w, opt_view(r)),
{
    match w {
        Some(x) => match x.resets_at {
            Some(at) => Some(fmt_reset(at)),
            None => None,
        },
        None => None,
    }
}

impl AppState {
    /// A tray with no sample yet; `system` is the language of the user's
    /// system, used when the setting names none.
    pub fn new(cfg: Config, system: Lang) -> (r: AppState)
        ensures
            r.config() == cfg,
            r.language() == crate::config::lang_of(cfg.language@, system),
            r.last_util() is None,
            r.last_duration() is None,
    {
        let lang = cfg.lang(system);
        AppState { cfg, lang, last_util: None, last_duration: None }
    }

    /// Takes a snapshot into account, given the reset texts of its primary
    /// and secondary windows.
    pub fn render(&mut self, snap: &Snapshot, primary_reset: Option<String>, secondary_reset: Option<String>) -> (out: Output)
        ensures
            renders(*old(self), *final(self), *snap, opt_view(primary_reset), opt_view(secondary_reset), out),
    {
        let lang = self.lang;
        let ws = ordered_windows(snap, &primary_reset, &secondary_reset);
        let ghost ord = ordered(*snap, opt_view(primary_reset), opt_view(secondary_reset));
        let ghost line_of = |e: (WindowUsage, Option<Seq<char>>)| line_text(lang, e.0, e.1);

        let mut lines: Vec<String> = Vec::new();
        let mut i: usize = 0;
        while i < ws.len()
            invariant
                i <= ws.len(),
                entries_view(ws@) == ord,
                line_of == (|e: (WindowUsage, Option<Seq<char>>)| line_text(lang, e.0, e.1)),
                views(lines@) == ord.take(i as int).map_values(line_of),
            decreases ws.len() - i,
        {
            let (w, r) = ws[i];
            let line = window_line(lang, &w, r);
            assert(ord[i as int] == (w, ref_view(r)));
            assert(line@ == line_of(ord[i as int]));
            let ghost before = views(lines@);
            lines.push(line);
            assert(views(lines@) =~= before.push(line@));
            assert(ord.take(i + 1) =~= ord.take(i as int).push(ord[i as int]));
            assert(ord.take(i + 1).map_values(line_of) =~= ord.take(i as int).map_values(line_of).push(line_of(ord[i as int])));
            i = i + 1;
        }
        assert(ord.take(ws.len() as int) =~= ord);
        if ws.len() == 0 {
            lines.push(unavailable_line(lang));
        }
        let ghost body = views(lines@);

        if let Some(c) = &snap.credits {
            if c.unlimited {
                lines.push(labelled("credits", lang, tr(lang, "unlimited")));
            } else if c.has_credits {
                if let Some(b) = &c.balance {
                    lines.push(labelled("credits", lang, b.as_str()));
                }
            }
        }
        assert(views(lines@) =~= body + credits_line(lang, *snap));
        let ghost with_credits = views(lines@);
        if let Some(n) = snap.reset_credits_available {
            if n > 0 {
                let count = dec_text(n);
                lines.push(labelled("reset_credits", lang, count.as_str()));
            }
        }
        assert(views(lines@) =~= with_credits + reset_credits_line(lang, *snap));
        assert(views(lines@) =~= tooltip_lines(lang, *snap, opt_view(primary_reset), opt_view(secondary_reset)));

        let all = join_lines(&lines);
        proof {
            reveal_strlit("\n");
            assert("\n"@ =~= seq!['\n']);
        }
        let tooltip = truncate(all.as_str(), TOOLTIP_MAX);

        let mut notifications: Vec<(String, String)> = Vec::new();
        let mut utilization: u32 = 0;
        if ws.len() > 0 {
            let (w, r) = ws[0];
            let now = w.utilization;
            utilization = now;
            if same_duration(self.last_duration, w.duration_minutes) {
                if let Some(prev) = self.last_util {
                    if crossed(&self.cfg.notify_thresholds, prev, now) {
                        notifications.push(
                            (String::from_str(tr(lang, "notif_title")), threshold_text(lang, &w, r)),
                        );
                    }
                    if self.cfg.notify_on_reset && (now as u64) + 5 * (PER_PERCENT as u64) < prev as u64 {
                        notifications.push(
                            (String::from_str(tr(lang, "notif_title")), reset_text(lang, &w)),
                        );
                    }
                }
            }
            self.last_util = Some(now);
            self.last_duration = w.duration_minutes;
        }
        let out = Output { tooltip, utilization: Some(utilization), notifications };
        assert(out.tooltip@ == tooltip_text(lang, *snap, opt_view(primary_reset), opt_view(secondary_reset)));
        assert(out.utilization == Some(
            match first_of(ord) {
                Some(f) => f.0.utilization,
                None => 0u32,
            },
        ));
        assert(notes_view(out.notifications@) =~= alerts(
            old(self).config(),
            lang,
            old(self).last_util(),
            old(self).last_duration(),
            first_of(ord),
        ));
        out
    }

    /// Takes the outcome of a query into account. A failure shows the
    /// error, grays the icon and leaves the memory as it was; a snapshot is
    /// rendered with the reset texts of its windows measured now.
    pub fn apply(&mut self, res: Result<Snapshot, String>) -> (out: Output)
        ensures
            match res {
                Err(e) => {
                    &&& out.tooltip@ == error_tooltip(old(self).language(), e@)
                    &&& out.utilization is None
                    &&& out.notifications@.len() == 0
                    &&& *final(self) == *old(self)
                },
                Ok(snap) => exists|primary_reset: Option<Seq<char>>, secondary_reset: Option<Seq<char>>|
                    resets_described(snap, primary_reset, secondary_reset) && renders(
                        *old(self),
                        *final(self),
                        snap,
                        primary_reset,
                        secondary_reset,
                        out,
                    ),
            },
    {
        match res {
            Err(e) => {
                let mut msg = String::from_str("Codex: ");
                msg.append(tr(self.lang, "error"));
                msg.append("\n");
                msg.append(e.as_str());
                Output { tooltip: truncate(msg.as_str(), TOOLTIP_MAX), utilization: None, notifications: Vec::new() }
            },
            Ok(snap) => {
                let primary_reset = reset_text_of(&snap.primary);
                let secondary_reset = reset_text_of(&snap.secondary);
                let ghost pv = opt_view(primary_reset);
                let ghost sv = opt_view(secondary_reset);
                let out = self.render(&snap, primary_reset, secondary_reset);
                assert(resets_described(snap, pv, sv));
                out
            },
        }
    }
}

} // verus!
