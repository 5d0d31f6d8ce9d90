use codex_usage_tray::clock::{fmt_reset_from, reset_phrase, UtcTime};
use codex_usage_tray::config::{shell_command_line, Config};
use codex_usage_tray::i18n::{lang_from_locale, lang_from_ui_language, tr, Lang};
use codex_usage_tray::icon::color;
use codex_usage_tray::text::{dec2_text, dec_text, int_text, join_lines, str_eq, truncate};

#[test]
fn translations() {
    assert_eq!(tr(Lang::Pt, "quit"), "Sair");
    assert_eq!(tr(Lang::En, "quit"), "Quit");
    assert_eq!(tr(Lang::Pt, "loading"), "Codex Usage — carregando…");
    assert_eq!(tr(Lang::En, "reset_credits"), "resets available");
    assert_eq!(tr(Lang::En, "nope"), "");
}

#[test]
fn decimal_texts() {
    assert_eq!(dec_text(0), "0");
    assert_eq!(dec_text(1234567890), "1234567890");
    assert_eq!(dec_text(u64::MAX), u64::MAX.to_string());
    assert_eq!(int_text(-45), "-45");
    assert_eq!(int_text(i64::MIN), i64::MIN.to_string());
    assert_eq!(dec2_text(7), "07");
    assert_eq!(dec2_text(42), "42");
}

#[test]
fn string_equality() {
    assert!(str_eq("créditos", "créditos"));
    assert!(!str_eq("abc", "abd"));
    assert!(!str_eq("ab", "abc"));
}

#[test]
fn truncation() {
    assert_eq!(truncate("hello", 5), "hello");
    assert_eq!(truncate("hello", 4), "hel…");
    assert_eq!(truncate("hello", 0), "…");
    assert_eq!(truncate("ééé", 2), "é…");
}

#[test]
fn joining() {
    let v = vec!["a".to_string(), "b".to_string(), "c".to_string()];
    assert_eq!(join_lines(&v), "a\nb\nc");
    assert_eq!(join_lines(&Vec::new()), "");
}

#[test]
fn reset_phrases() {
    assert_eq!(reset_phrase("20:00", 133), "20:00 (2h13)");
    assert_eq!(reset_phrase("13/08 09:00", 6600), "13/08 09:00 (4d14h)");
    assert_eq!(reset_phrase("20:00", 5), "20:00 (5min)");
    assert_eq!(reset_phrase("20:00", -12), "20:00 (0min)");
    assert_eq!(reset_phrase("20:00", 60), "20:00 (1h00)");
}

#[test]
fn reset_from_uses_minutes_given() {
    let at = UtcTime::from_timestamp(1786125600).unwrap();
    let now = |mins: i128| (1786125600i128 - mins * 60) * 1_000_000_000;
    let short = fmt_reset_from(at, now(133));
    assert!(short.ends_with(" (2h13)"));
    assert_eq!(short.chars().count(), "HH:MM (2h13)".len());
    assert!(fmt_reset_from(at, now(133) - 1).ends_with(" (2h13)"));
    assert!(fmt_reset_from(at, now(133) + 1).ends_with(" (2h12)"));
    assert!(fmt_reset_from(at, now(-5)).ends_with(" (0min)"));
    let long = fmt_reset_from(at, now(6600));
    assert!(long.ends_with(" (4d14h)"));
    assert_eq!(long.chars().count(), "dd/mm HH:MM (4d14h)".len());
}

#[test]
fn out_of_range_instant_is_refused() {
    assert!(UtcTime::from_timestamp(i64::MAX).is_none());
    assert!(UtcTime::from_timestamp(8210266876799).is_some());
    assert!(UtcTime::from_timestamp(8210266876800).is_none());
    assert!(UtcTime::from_timestamp(-8334601228800).is_some());
    assert!(UtcTime::from_timestamp(-8334601228801).is_none());
    assert_eq!(UtcTime::from_timestamp(0).unwrap().timestamp(), 0);
}

#[test]
fn ring_colors() {
    let cfg = Config::default();
    assert_eq!(color(None, &cfg), [128, 128, 128, 255]);
    assert_eq!(color(Some(85_000_000), &cfg), [239, 68, 68, 255]);
    assert_eq!(color(Some(84_999_999), &cfg), [245, 158, 11, 255]);
    assert_eq!(color(Some(60_000_000), &cfg), [245, 158, 11, 255]);
    assert_eq!(color(Some(59_999_999), &cfg), [16, 185, 129, 255]);
}

#[test]
fn config_defaults_and_language() {
    let mut cfg = Config::default();
    assert_eq!(cfg.language, "auto");
    assert_eq!(cfg.notify_thresholds, vec![50, 80, 95]);
    assert_eq!(cfg.codex_command, "codex");
    assert_eq!(cfg.lang(Lang::Pt), Lang::Pt);
    assert_eq!(cfg.lang(Lang::En), Lang::En);
    cfg.language = "pt".into();
    assert_eq!(cfg.lang(Lang::En), Lang::Pt);
    cfg.language = "en".into();
    assert_eq!(cfg.lang(Lang::Pt), Lang::En);
    assert_eq!(cfg.poll_secs(), 180);
    cfg.poll_interval_secs = 10;
    cfg.request_timeout_secs = 1;
    assert_eq!(cfg.poll_secs(), 60);
    assert_eq!(cfg.timeout_secs(), 5);
}

#[test]
fn config_path_ends_with_file_name() {
    let p = Config::path();
    assert!(p.ends_with("codex-usage-tray/config.json"));
    assert!(Config::dir().ends_with("codex-usage-tray"));
}

#[test]
fn config_path_components() {
    let p = Config::path();
    let parts: Vec<String> = p
        .components()
        .map(|c| c.as_os_str().to_string_lossy().into_owned())
        .collect();
    let n = parts.len();
    assert!(n >= 2);
    assert_eq!(parts[n - 1], "config.json");
    assert_eq!(parts[n - 2], "codex-usage-tray");
    let d = Config::dir();
    assert_eq!(d.components().count(), n - 1);
}

#[test]
fn settings_under_given_base() {
    let base = std::path::PathBuf::from("/home/u/.config");
    assert_eq!(
        Config::path_in(Some(base.clone())),
        std::path::PathBuf::from("/home/u/.config/codex-usage-tray/config.json")
    );
    assert_eq!(Config::dir_in(Some(base)), std::path::PathBuf::from("/home/u/.config/codex-usage-tray"));
    assert_eq!(Config::path_in(None), std::path::PathBuf::from("./codex-usage-tray/config.json"));
    if let Some(platform) = dirs::config_dir() {
        assert_eq!(Config::path(), platform.join("codex-usage-tray").join("config.json"));
    }
}

#[test]
fn codex_program_and_shell_line() {
    let mut cfg = Config::default();
    cfg.codex_command = "  /opt/codex \t".into();
    assert_eq!(cfg.codex_program(), Ok("/opt/codex".to_string()));
    cfg.codex_command = " \n ".into();
    assert_eq!(cfg.codex_program(), Err("codex_command is empty".to_string()));
    assert_eq!(shell_command_line("codex"), "\"codex\" app-server --stdio");
}

#[test]
fn system_language_detection() {
    assert_eq!(lang_from_ui_language(0x0416), Lang::Pt);
    assert_eq!(lang_from_ui_language(0x0816), Lang::Pt);
    assert_eq!(lang_from_ui_language(0x0409), Lang::En);
    assert_eq!(lang_from_locale("pt_BR.UTF-8"), Lang::Pt);
    assert_eq!(lang_from_locale("en_US.UTF-8"), Lang::En);
    assert_eq!(lang_from_locale("p"), Lang::En);
    assert_eq!(lang_from_locale(""), Lang::En);
}

#[test]
fn unicode_white_space_is_trimmed() {
    let mut cfg = Config::default();
    cfg.codex_command = "\u{3000}\u{a0}codex cli\u{2028}".into();
    assert_eq!(cfg.codex_program(), Ok("codex cli".to_string()));
}
