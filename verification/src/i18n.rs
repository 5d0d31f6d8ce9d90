//! Portuguese and English texts.
use vstd::prelude::*;

use vstd::string::StrSliceExecFns;

use crate::text::str_eq;

verus! {

/// Display language.
#[derive(Copy, Clone, PartialEq, Eq, Debug, Structural)]
pub enum Lang {
    Pt,
    En,
}

/// One text of the table, chosen by language.
pub open spec fn by_lang(lang: Lang, pt: Seq<char>, en: Seq<char>) -> Seq<char> {
    match lang {
        Lang::Pt => pt,
        Lang::En => en,
    }
}

/// The text that `tr` gives for `key`; empty for an unknown key.
pub open spec fn tr_text(lang: Lang, key: Seq<char>) -> Seq<char> {
    if key == "loading"@ {
        by_lang(lang, "Codex Usage — carregando…"@, "Codex Usage — loading…"@)
    } else if key == "refresh"@ {
        by_lang(lang, "Atualizar agora"@, "Refresh now"@)
    } else if key == "open_usage"@ {
        by_lang(lang, "Abrir página de uso do Codex"@, "Open Codex usage page"@)
    } else if key == "open_config"@ {
        by_lang(lang, "Abrir configurações"@, "Open settings"@)
    } else if key == "quit"@ {
        by_lang(lang, "Sair"@, "Quit"@)
    } else if key == "used"@ {
        by_lang(lang, "usado"@, "used"@)
    } else if key == "resets"@ {
        by_lang(lang, "reseta"@, "resets"@)
    } else if key == "error"@ {
        by_lang(lang, "erro ao consultar uso"@, "error fetching usage"@)
    } else if key == "notif_title"@ {
        by_lang(lang, "Uso do Codex"@, "Codex usage"@)
    } else if key == "credits"@ {
        by_lang(lang, "créditos"@, "credits"@)
    } else if key == "unlimited"@ {
        by_lang(lang, "ilimitados"@, "unlimited"@)
    } else if key == "reset_credits"@ {
        by_lang(lang, "resets disponíveis"@, "resets available"@)
    } else {
        ""@
    }
}

fn pick(lang: Lang, pt: &'static str, en: &'static str) -> (r: &'static str)
    ensures
        r@ == by_lang(lang, pt@, en@),
{
    match lang {
        Lang::Pt => pt,
        Lang::En => en,
    }
}

/// Looks up the text for `key` in `lang`; an unknown key gives "".
pub fn tr(lang: Lang, key: &str) -> (r: &'static str)
    ensures
        r@ == tr_text(lang, key@),
{
    if str_eq(key, "loading") {
        pick(lang, "Codex Usage — carregando…", "Codex Usage — loading…")
    } else if str_eq(key, "refresh") {
        pick(lang, "Atualizar agora", "Refresh now")
    } else if str_eq(key, "open_usage") {
        pick(lang, "Abrir página de uso do Codex", "Open Codex usage page")
    } else if str_eq(key, "open_config") {
        pick(lang, "Abrir configurações", "Open settings")
    } else if str_eq(key, "quit") {
        pick(lang, "Sair", "Quit")
    } else if str_eq(key, "used") {
        pick(lang, "usado", "used")
    } else if str_eq(key, "resets") {
        pick(lang, "reseta", "resets")
    } else if str_eq(key, "error") {
        pick(lang, "erro ao consultar uso", "error fetching usage")
    } else if str_eq(key, "notif_title") {
        pick(lang, "Uso do Codex", "Codex usage")
    } else if str_eq(key, "credits") {
        pick(lang, "créditos", "credits")
    } else if str_eq(key, "unlimited") {
        pick(lang, "ilimitados", "unlimited")
    } else if str_eq(key, "reset_credits") {
        pick(lang, "resets disponíveis", "resets available")
    } else {
        ""
    }
}

/// The language of a Windows UI language id: Portuguese when its primary
/// language (the low ten bits) is LANG_PORTUGUESE (0x16), else English.
pub open spec fn lang_of_ui_id(id: u16) -> Lang {
    if id & 0x3ff == 0x16 {
        Lang::Pt
    } else {
        Lang::En
    }
}

/// The language of a Windows UI language id.
pub fn lang_from_ui_language(id: u16) -> (r: Lang)
    ensures
        r == lang_of_ui_id(id),
{
    if id & 0x3ff == 0x16 {
        Lang::Pt
    } else {
        Lang::En
    }
}

/// The language of a locale setting such as `LANG`: Portuguese when it
/// starts with "pt", else English.
pub open spec fn lang_of_locale(locale: Seq<char>) -> Lang {
    if locale.len() >= 2 && locale[0] == 'p' && locale[1] == 't' {
        Lang::Pt
    } else {
        Lang::En
    }
}

/// The language of a locale setting.
pub fn lang_from_locale(locale: &str) -> (r: Lang)
    ensures
        r == lang_of_locale(locale@),
{
    if locale.unicode_len() >= 2 && locale.get_char(0) == 'p' && locale.get_char(1) == 't' {
        Lang::Pt
    } else {
        Lang::En
    }
}

} // verus!
