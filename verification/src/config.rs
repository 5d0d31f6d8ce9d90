//! User settings.
use std::path::PathBuf;
use vstd::prelude::*;
use vstd::string::StrSliceExecFns;
use vstd::string::StringExecFns;

use crate::i18n::Lang;
use crate::text::str_eq;

verus! {

#[verifier::external_type_specification]
#[verifier::external_body]
pub struct ExPathBuf(PathBuf);

/// Calls `dirs::config_dir`: the platform's per-user configuration
/// directory, read from the environment or the system. Nothing is claimed
/// of the result.
#[verifier::external_body]
fn platform_config_dir() -> (r: Option<PathBuf>) {
    dirs::config_dir()
}

/// The components of a path, as `Path::components` yields them, each taken
/// by the encoded bytes of `Component::as_os_str`.
pub uninterp spec fn path_parts(p: PathBuf) -> Seq<Seq<u8>>;

/// The bytes of an ASCII text.
pub open spec fn ascii_bytes(s: Seq<char>) -> Seq<u8> {
    s.map_values(|c: char| c as u8)
}

/// A character that never has a special meaning in a path.
pub open spec fn is_name_char(c: char) -> bool {
    ('a' <= c && c <= 'z') || ('A' <= c && c <= 'Z') || ('0' <= c && c <= '9') || c == '-' || c
        == '_' || c == '.'
}

/// A single ordinary path component: not empty, not "." or "..", made of
/// letters, digits, '-', '_' and '.'.
pub open spec fn plain_segment(s: Seq<char>) -> bool {
    &&& s.len() > 0
    &&& s != seq!['.']
    &&& s != seq!['.', '.']
    &&& forall|i: int| 0 <= i < s.len() ==> is_name_char(#[trigger] s[i])
}

/// Calls `PathBuf::from` on ".". Claims what `Path::components` documents
/// for a path that begins with ".": a single current-directory component,
/// whose text is ".".
#[verifier::external_body]
fn path_from(s: &str) -> (r: PathBuf)
    requires
        s@ == seq!['.'],
    ensures
        path_parts(r) == seq![seq![46u8]],
{
    PathBuf::from(s)
}

/// Whether the first component is a Windows verbatim prefix (`\\?\`).
pub open spec fn verbatim(parts: Seq<Seq<u8>>) -> bool {
    parts.len() > 0 && parts[0].len() >= 4 && parts[0].take(4) == seq![92u8, 92u8, 63u8, 92u8]
}

/// Calls `Path::join`. Claims what `PathBuf::push` documents for a relative
/// path: the segment is adjoined at the end, so it is the last component;
/// and, for a base without a verbatim prefix (whose `.` and `..` push would
/// remove), the components are those of `base` followed by the segment.
/// `requires` keeps the segment to a single ordinary component (no
/// separator, no prefix or root, not "." or "..").
#[verifier::external_body]
fn path_join(base: &PathBuf, segment: &str) -> (r: PathBuf)
    requires
        plain_segment(segment@),
    ensures
        path_parts(r).len() >= 1,
        path_parts(r).last() == ascii_bytes(segment@),
        !verbatim(path_parts(*base)) ==> path_parts(r) == path_parts(*base).push(
            ascii_bytes(segment@),
        ),
{
    base.join(segment)
}

/// Whether a base directory has a verbatim prefix.
pub open spec fn verbatim_base(base: Option<PathBuf>) -> bool {
    match base {
        Some(b) => verbatim(path_parts(b)),
        None => false,
    }
}

/// Whether `parts` are those of the program's configuration directory
/// under `base`: exactly `app_dir_parts(base)` for a base without a
/// verbatim prefix, and ending in `codex-usage-tray` in any case.
pub open spec fn is_app_dir(parts: Seq<Seq<u8>>, base: Option<PathBuf>) -> bool {
    &&& parts.len() >= 1
    &&& parts.last() == ascii_bytes("codex-usage-tray"@)
    &&& !verbatim_base(base) ==> parts == app_dir_parts(base)
}

/// Whether `parts` are those of the settings file under `base`: exactly
/// `settings_parts(base)` for a base without a verbatim prefix, and ending
/// in `config.json` in any case.
pub open spec fn is_settings_file(parts: Seq<Seq<u8>>, base: Option<PathBuf>) -> bool {
    &&& parts.len() >= 1
    &&& parts.last() == ascii_bytes("config.json"@)
    &&& !verbatim_base(base) ==> parts == settings_parts(base)
}

/// The components of the program's configuration directory:
/// `codex-usage-tray` under `base`, or under "." when there is no base.
pub open spec fn app_dir_parts(base: Option<PathBuf>) -> Seq<Seq<u8>> {
    match base {
        Some(b) => path_parts(b),
        None => seq![seq![46u8]],
    }.push(ascii_bytes("codex-usage-tray"@))
}

/// The components of the settings file: `config.json` in the program's
/// configuration directory.
pub open spec fn settings_parts(base: Option<PathBuf>) -> Seq<Seq<u8>> {
    app_dir_parts(base).push(ascii_bytes("config.json"@))
}

/// Whether `c` has the Unicode property White_Space.
pub open spec fn is_white_space(c: char) -> bool {
    ||| ('\u{9}' <= c && c <= '\u{d}')
    ||| c == ' '
    ||| c == '\u{85}'
    ||| c == '\u{a0}'
    ||| c == '\u{1680}'
    ||| ('\u{2000}' <= c && c <= '\u{200a}')
    ||| c == '\u{2028}'
    ||| c == '\u{2029}'
    ||| c == '\u{202f}'
    ||| c == '\u{205f}'
    ||| c == '\u{3000}'
}

/// The number of white-space characters at the start of `s`.
pub open spec fn leading_white(s: Seq<char>) -> nat
    decreases s.len(),
{
    if s.len() > 0 && is_white_space(s[0]) {
        1 + leading_white(s.drop_first())
    } else {
        0
    }
}

/// The number of white-space characters at the end of `s`.
pub open spec fn trailing_white(s: Seq<char>) -> nat
    decreases s.len(),
{
    if s.len() > 0 && is_white_space(s.last()) {
        1 + trailing_white(s.drop_last())
    } else {
        0
    }
}

/// `s` without its leading and trailing white space.
pub open spec fn trimmed(s: Seq<char>) -> Seq<char> {
    let t = s.skip(leading_white(s) as int);
    t.take(t.len() - trailing_white(t))
}

/// Calls `str::trim`, which its documentation describes as removing the
/// leading and trailing characters with the Unicode property White_Space.
#[verifier::external_body]
fn trim_text(s: &str) -> (r: &str)
    ensures
        r@ == trimmed(s@),
{
    s.trim()
}

/// The command line that a Windows shell is given to start the app-server
/// with `program`.
pub open spec fn shell_line_text(program: Seq<char>) -> Seq<char> {
    "\""@ + program + "\" app-server --stdio"@
}

/// Builds the command line `"{program}" app-server --stdio`.
pub fn shell_command_line(program: &str) -> (r: String)
    ensures
        r@ == shell_line_text(program@),
{
    let mut s = "\"".to_owned();
    s.append(program);
    s.append("\" app-server --stdio");
    s
}

/// Settings, read from `config.json` in the configuration directory.
#[derive(Clone, Debug)]
pub struct Config {
    /// "auto", "pt" or "en".
    pub language: String,
    /// How often to poll Codex usage, in seconds.
    pub poll_interval_secs: u64,
    /// Timeout for one app-server request cycle.
    pub request_timeout_secs: u64,
    /// Notify when usage crosses these percentages.
    pub notify_thresholds: Vec<u8>,
    /// Notify when the focused quota window resets.
    pub notify_on_reset: bool,
    /// The icon turns yellow at this percent used.
    pub icon_yellow_at: u8,
    /// The icon turns red at this percent used.
    pub icon_red_at: u8,
    /// Codex CLI command or full executable path.
    pub codex_command: String,
}

/// Whether `c` holds the default settings.
pub open spec fn is_default_config(c: Config) -> bool {
    &&& c.language@ == "auto"@
    &&& c.poll_interval_secs == 180
    &&& c.request_timeout_secs == 20
    &&& c.notify_thresholds@ == seq![50u8, 80u8, 95u8]
    &&& c.notify_on_reset
    &&& c.icon_yellow_at == 60
    &&& c.icon_red_at == 85
    &&& c.codex_command@ == "codex"@
}

impl Default for Config {
    fn default() -> (r: Self)
        ensures
            is_default_config(r),
    {
        let thresholds = vec![50u8, 80u8, 95u8];
        Config {
            language: "auto".to_owned(),
            poll_interval_secs: 180,
            request_timeout_secs: 20,
            notify_thresholds: thresholds,
            notify_on_reset: true,
            icon_yellow_at: 60,
            icon_red_at: 85,
            codex_command: "codex".to_owned(),
        }
    }
}

/// The language that a `language` setting selects; any value other than
/// "pt" and "en" defers to the system's language.
pub open spec fn lang_of(setting: Seq<char>, system: Lang) -> Lang {
    if setting == "pt"@ {
        Lang::Pt
    } else if setting == "en"@ {
        Lang::En
    } else {
        system
    }
}

/// The smallest polling interval used, in seconds.
pub const MIN_POLL_SECS: u64 = 60;

/// The smallest request timeout used, in seconds.
pub const MIN_TIMEOUT_SECS: u64 = 5;

impl Config {
    /// The configuration directory of this program: `codex-usage-tray` under
    /// the platform's configuration directory, read from the machine.
    pub fn dir() -> (r: PathBuf)
        ensures
            exists|base: Option<PathBuf>| is_app_dir(path_parts(r), base),
    {
        Self::dir_in(platform_config_dir())
    }

    /// The settings file: `config.json` in the program's configuration
    /// directory under the platform's configuration directory.
    pub fn path() -> (r: PathBuf)
        ensures
            exists|base: Option<PathBuf>| is_settings_file(path_parts(r), base),
    {
        Self::path_in(platform_config_dir())
    }

    /// `codex-usage-tray` under `base`, or under "." when there is no base.
    pub fn dir_in(base: Option<PathBuf>) -> (r: PathBuf)
        ensures
            is_app_dir(path_parts(r), base),
    {
        proof {
            reveal_strlit(".");
            reveal_strlit("codex-usage-tray");
            assert("."@ =~= seq!['.']);
            assert("codex-usage-tray"@ =~= seq!['c', 'o', 'd', 'e', 'x', '-', 'u', 's', 'a', 'g', 'e', '-', 't', 'r', 'a', 'y']);
            assert(plain_segment("codex-usage-tray"@));
        }
        let b = match base {
            Some(d) => d,
            None => path_from("."),
        };
        path_join(&b, "codex-usage-tray")
    }

    /// `config.json` in `dir_in(base)`.
    pub fn path_in(base: Option<PathBuf>) -> (r: PathBuf)
        ensures
            is_settings_file(path_parts(r), base),
    {
        proof {
            reveal_strlit("config.json");
            assert("config.json"@ =~= seq!['c', 'o', 'n', 'f', 'i', 'g', '.', 'j', 's', 'o', 'n']);
            assert(plain_segment("config.json"@));
        }
        let ghost given = base;
        let dir = Self::dir_in(base);
        proof {
            reveal_strlit("codex-usage-tray");
            let parts = path_parts(dir);
            if !verbatim_base(given) {
                let below = match given {
                    Some(b) => path_parts(b),
                    None => seq![seq![46u8]],
                };
                assert(parts == below.push(ascii_bytes("codex-usage-tray"@)));
                assert(parts == app_dir_parts(given));
                if below.len() > 0 {
                    assert(parts[0] == below[0]);
                } else {
                    assert(parts[0] == ascii_bytes("codex-usage-tray"@));
                    assert(parts[0][0] == 99u8);
                }
                assert(!verbatim(parts));
            }
        }
        path_join(&dir, "config.json")
    }

    /// The Codex command: the setting without surrounding white space. It
    /// fails, with "codex_command is empty", when nothing is left.
    pub fn codex_program(&self) -> (r: Result<String, String>)
        ensures
            match r {
                Ok(c) => trimmed(self.codex_command@).len() > 0 && c@ == trimmed(
                    self.codex_command@,
                ),
                Err(e) => trimmed(self.codex_command@).len() == 0 && e@
                    == "codex_command is empty"@,
            },
    {
        let command = trim_text(self.codex_command.as_str());
        if command.unicode_len() == 0 {
            Err("codex_command is empty".to_owned())
        } else {
            Ok(command.to_owned())
        }
    }

    /// The display language; `system` is the language of the user's system,
    /// used when the setting is neither "pt" nor "en".
    pub fn lang(&self, system: Lang) -> (r: Lang)
        ensures
            r == lang_of(self.language@, system),
    {
        if str_eq(self.language.as_str(), "pt") {
            Lang::Pt
        } else if str_eq(self.language.as_str(), "en") {
            Lang::En
        } else {
            system
        }
    }

    /// The polling interval in use: the setting, but at least a minute.
    pub fn poll_secs(&self) -> (r: u64)
        ensures
            r == if self.poll_interval_secs < MIN_POLL_SECS {
                MIN_POLL_SECS
            } else {
                self.poll_interval_secs
            },
    {
        if self.poll_interval_secs < MIN_POLL_SECS {
            MIN_POLL_SECS
        } else {
            self.poll_interval_secs
        }
    }

    /// The request timeout in use: the setting, but at least five seconds.
    pub fn timeout_secs(&self) -> (r: u64)
        ensures
            r == if self.request_timeout_secs < MIN_TIMEOUT_SECS {
                MIN_TIMEOUT_SECS
            } else {
                self.request_timeout_secs
            },
    {
        if self.request_timeout_secs < MIN_TIMEOUT_SECS {
            MIN_TIMEOUT_SECS
        } else {
            self.request_timeout_secs
        }
    }
}

} // verus!
