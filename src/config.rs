//! Settings given what the environment holds (listening mode and bind host, shell,
//! configuration path), and the choice among probed candidate paths.
use vstd::prelude::*;
use crate::json::{json_nested_str, json_nested_str_of};
use crate::status::opt_chars;
use crate::entry::{expand_home, home_expanded};
use crate::text::str_eq;

verus! {

/// The listening mode that a setting selects: `all` where it says so, else `local`.
pub open spec fn mode_of(setting: Option<Seq<char>>) -> Seq<char> {
    if setting == Some("all"@) {
        "all"@
    } else {
        "local"@
    }
}

/// The listening mode of a configuration document: its `preferences.listeningMode`
/// where that is `all`, else `local`; `local` too where there is no document.
pub open spec fn config_mode(config_text: Option<Seq<char>>) -> Seq<char> {
    match config_text {
        Some(t) => mode_of(json_nested_str_of(t, "preferences"@, "listeningMode"@)),
        None => "local"@,
    }
}

/// The bind host of a listening mode: loopback only for `local`, every interface
/// for anything else.
pub open spec fn host_of(mode: Seq<char>) -> Seq<char> {
    if mode == "local"@ {
        "127.0.0.1"@
    } else {
        "0.0.0.0"@
    }
}

/// The listening mode that the value of the `listeningMode` setting selects.
pub fn listening_mode_from(setting: &Option<String>) -> (r: String)
    ensures
        r@ == mode_of(opt_chars(*setting)),
{
    match setting {
        Some(s) => {
            if str_eq(s.as_str(), "all") {
                return String::from_str("all");
            }
        },
        None => {},
    }
    String::from_str("local")
}

/// The listening mode of the configuration document `config_text`, where one could
/// be read.
pub fn resolve_listening_mode(config_text: Option<&str>) -> (r: String)
    ensures
        r@ == config_mode(match config_text {
            Some(t) => Some(t@),
            None => None,
        }),
{
    match config_text {
        Some(t) => {
            let setting = json_nested_str(t, "preferences", "listeningMode");
            listening_mode_from(&setting)
        },
        None => String::from_str("local"),
    }
}

/// The bind host of the listening mode `mode`.
pub fn resolve_listening_host(mode: &str) -> (r: String)
    ensures
        r@ == host_of(mode@),
{
    if str_eq(mode, "local") {
        String::from_str("127.0.0.1")
    } else {
        String::from_str("0.0.0.0")
    }
}

/// Whether candidate `i` is a path that exists.
pub open spec fn found_at(paths: Seq<Option<String>>, exists: Seq<bool>, i: int) -> bool {
    paths[i] is Some && exists[i]
}

/// The first candidate path that exists, given for each candidate whether it does;
/// a candidate that is `None` could not be formed and never counts.
pub fn first_existing(paths: &Vec<Option<String>>, exists: &Vec<bool>) -> (r: Option<usize>)
    requires
        paths@.len() == exists@.len(),
    ensures
        match r {
            Some(i) => i < paths@.len() && found_at(paths@, exists@, i as int)
                && forall|j: int| 0 <= j < i ==> !found_at(paths@, exists@, j),
            None => forall|j: int| 0 <= j < paths@.len() ==> !found_at(paths@, exists@, j),
        },
{
    let mut i: usize = 0;
    while i < paths.len()
        invariant
            paths@.len() == exists@.len(),
            i <= paths@.len(),
            forall|j: int| 0 <= j < i ==> !found_at(paths@, exists@, j),
        decreases paths@.len() - i,
    {
        if paths[i].is_some() && exists[i] {
            return Some(i);
        }
        i = i + 1;
    }
    None
}

/// The path as it is reported: its canonical form where one could be had, else
/// the path itself.
pub fn normalize_path(path: String, canonical: Option<String>) -> (r: String)
    ensures
        r@ == match canonical {
            Some(c) => c@,
            None => path@,
        },
{
    match canonical {
        Some(c) => c,
        None => path,
    }
}

/// A text without its leading and trailing whitespace, as `str::trim` gives it.
pub uninterp spec fn trimmed_of(s: Seq<char>) -> Seq<char>;

/// Relies on `str::trim`: the text without leading and trailing whitespace; it
/// depends on the characters alone.
#[verifier::external_body]
fn trimmed(s: &str) -> (r: String)
    ensures
        r@ == trimmed_of(s@),
{
    s.trim().to_string()
}

/// The trimmed form of an optional setting; empty where it is absent.
pub open spec fn trimmed_setting(value: Option<Seq<char>>) -> Seq<char> {
    match value {
        Some(v) => trimmed_of(v),
        None => Seq::empty(),
    }
}

/// Whether a setting is given with more than whitespace, `trimmed` being its form
/// without leading and trailing whitespace.
pub open spec fn is_set(value: Option<Seq<char>>, trimmed: Seq<char>) -> bool {
    value is Some && trimmed.len() > 0
}

/// The shell that runs the server: the user's `SHELL` where it is set to more than
/// whitespace (`trimmed` being its trimmed form), else zsh on macOS and bash
/// elsewhere.
pub open spec fn shell_choice(env_shell: Option<Seq<char>>, trimmed: Seq<char>, is_macos: bool) -> Seq<char> {
    if is_set(env_shell, trimmed) {
        env_shell->0
    } else if is_macos {
        "/bin/zsh"@
    } else {
        "/bin/bash"@
    }
}

/// The path of the configuration document: the override where it is set to more
/// than whitespace (`trimmed` being its trimmed form), else the default path; a
/// leading `~/` goes under `home`.
pub open spec fn config_path_of(
    env_value: Option<Seq<char>>,
    trimmed: Seq<char>,
    home: Option<Seq<char>>,
) -> Seq<char> {
    let raw = if is_set(env_value, trimmed) {
        env_value->0
    } else {
        "~/.config/codenomad/config.json"@
    };
    home_expanded(raw, home)
}

fn trim_setting(value: Option<&str>) -> (r: String)
    ensures
        r@ == trimmed_setting(
            match value {
                Some(v) => Some(v@),
                None => None,
            },
        ),
{
    match value {
        Some(v) => trimmed(v),
        None => String::new(),
    }
}

/// The shell that runs the server, given the value of `SHELL` where it is set and
/// that value without leading and trailing whitespace.
pub fn shell_from_setting(env_shell: Option<&str>, trimmed: &str, is_macos: bool) -> (r: String)
    ensures
        r@ == shell_choice(
            match env_shell {
                Some(v) => Some(v@),
                None => None,
            },
            trimmed@,
            is_macos,
        ),
{
    match env_shell {
        Some(v) => {
            if trimmed.unicode_len() > 0 {
                return String::from_str(v);
            }
        },
        None => {},
    }
    if is_macos {
        String::from_str("/bin/zsh")
    } else {
        String::from_str("/bin/bash")
    }
}

/// The shell that runs the server, given the value of `SHELL` where it is set.
pub fn default_shell(env_shell: Option<&str>, is_macos: bool) -> (r: String)
    ensures
        r@ == shell_choice(
            match env_shell {
                Some(v) => Some(v@),
                None => None,
            },
            trimmed_setting(
                match env_shell {
                    Some(v) => Some(v@),
                    None => None,
                },
            ),
            is_macos,
        ),
{
    let t = trim_setting(env_shell);
    shell_from_setting(env_shell, t.as_str(), is_macos)
}

/// The path of the configuration document, given the override where it is set,
/// that override without leading and trailing whitespace, and the home directory
/// where it is known.
pub fn config_path_from_setting(env_value: Option<&str>, trimmed: &str, home: Option<&str>) -> (r: String)
    ensures
        r@ == config_path_of(
            match env_value {
                Some(v) => Some(v@),
                None => None,
            },
            trimmed@,
            match home {
                Some(h) => Some(h@),
                None => None,
            },
        ),
{
    match env_value {
        Some(v) => {
            if trimmed.unicode_len() > 0 {
                return expand_home(v, home);
            }
        },
        None => {},
    }
    expand_home("~/.config/codenomad/config.json", home)
}

/// The path of the configuration document, given the override where it is set and
/// the home directory where it is known.
pub fn resolve_config_path(env_value: Option<&str>, home: Option<&str>) -> (r: String)
    ensures
        r@ == config_path_of(
            match env_value {
                Some(v) => Some(v@),
                None => None,
            },
            trimmed_setting(
                match env_value {
                    Some(v) => Some(v@),
                    None => None,
                },
            ),
            match home {
                Some(h) => Some(h@),
                None => None,
            },
        ),
{
    let t = trim_setting(env_value);
    config_path_from_setting(env_value, t.as_str(), home)
}

} // verus!
