//! The terminal module: the terminal emulator, recognised by the variables
//! it sets.

use vstd::prelude::*;
use crate::modules::{ModuleKind, kind_name};
use crate::modules::shell::shell_text;
use crate::text::{concat3, file_name, opt_str, owned, str_eq};

verus! {

/// Shows the terminal emulator.
pub struct TerminalModule;

/// The session variables the module reads (`None` or `false` when unset).
pub struct TermEnv {
    pub tilix_id: bool,
    pub konsole_version: bool,
    pub kitty_window_id: Option<String>,
    pub alacritty_socket: bool,
    pub alacritty_log: bool,
    pub wezterm_executable: Option<String>,
    pub tmux: bool,
    pub term_program: Option<String>,
    pub terminal: Option<String>,
    pub term: Option<String>,
}

/// The name a `$TERM_PROGRAM` value stands for.
pub open spec fn term_program_name(t: Seq<char>) -> Seq<char> {
    if t == "iTerm.app"@ {
        "iTerm2"@
    } else if t == "Apple_Terminal"@ {
        "Apple Terminal"@
    } else if t == "vscode"@ {
        "VS Code"@
    } else if t == "WarpTerminal"@ {
        "Warp"@
    } else if t == "Hyper"@ {
        "Hyper"@
    } else {
        t
    }
}

/// The name a `$TERM` value stands for.
pub open spec fn term_name(t: Seq<char>) -> Seq<char> {
    if t == "xterm-256color"@ || t == "xterm"@ {
        "xterm"@
    } else if t == "rxvt-unicode-256color"@ || t == "rxvt-unicode"@ || t == "rxvt"@ {
        "rxvt"@
    } else if t == "screen-256color"@ || t == "screen"@ {
        "GNU Screen"@
    } else if t == "linux"@ {
        "Linux Console"@
    } else {
        t
    }
}

/// The terminal running inside tmux: `$TERM_PROGRAM`, else the file name of
/// a non-empty `$TERMINAL`, else `"unknown"`.
pub open spec fn inner_term(env: TermEnv) -> Seq<char> {
    match opt_str(env.term_program) {
        Some(t) => t,
        None => match opt_str(env.terminal) {
            Some(t) if t.len() > 0 => shell_text(t),
            _ => "unknown"@,
        },
    }
}

/// What the module shows.
pub open spec fn terminal_text(env: TermEnv) -> Seq<char> {
    if env.tilix_id {
        "Tilix"@
    } else if env.konsole_version {
        "Konsole"@
    } else if opt_str(env.kitty_window_id) matches Some(v) && v.len() > 0 {
        "Kitty"@
    } else if env.alacritty_socket || env.alacritty_log {
        "Alacritty"@
    } else if opt_str(env.wezterm_executable) matches Some(v) && v.len() > 0 {
        "WezTerm"@
    } else if env.tmux {
        "tmux ("@ + inner_term(env) + ")"@
    } else {
        match opt_str(env.term_program) {
            Some(t) => term_program_name(t),
            None => match opt_str(env.terminal) {
                Some(t) if t.len() > 0 => shell_text(t),
                _ => match opt_str(env.term) {
                    Some(t) => term_name(t),
                    None => "Vamora Terminal"@,
                },
            },
        }
    }
}

/// A path's file name, or the path itself when it has none.
fn file_name_or_self(p: &String) -> (r: String)
    ensures
        r@ == shell_text(p@),
{
    match file_name(p.as_str()) {
        Some(n) => n,
        None => p.clone(),
    }
}

/// The terminal running inside tmux.
pub fn detect_inner_term(env: &TermEnv) -> (r: String)
    ensures
        r@ == inner_term(*env),
{
    match &env.term_program {
        Some(t) => t.clone(),
        None => match &env.terminal {
            Some(t) => if !t.as_str().is_empty() {
                file_name_or_self(t)
            } else {
                owned("unknown")
            },
            None => owned("unknown"),
        },
    }
}

fn program_name(t: &String) -> (r: String)
    ensures
        r@ == term_program_name(t@),
{
    let s = t.as_str();
    if str_eq(s, "iTerm.app") {
        owned("iTerm2")
    } else if str_eq(s, "Apple_Terminal") {
        owned("Apple Terminal")
    } else if str_eq(s, "vscode") {
        owned("VS Code")
    } else if str_eq(s, "WarpTerminal") {
        owned("Warp")
    } else if str_eq(s, "Hyper") {
        owned("Hyper")
    } else {
        t.clone()
    }
}

fn term_value_name(t: &String) -> (r: String)
    ensures
        r@ == term_name(t@),
{
    let s = t.as_str();
    if str_eq(s, "xterm-256color") || str_eq(s, "xterm") {
        owned("xterm")
    } else if str_eq(s, "rxvt-unicode-256color") || str_eq(s, "rxvt-unicode") || str_eq(s, "rxvt") {
        owned("rxvt")
    } else if str_eq(s, "screen-256color") || str_eq(s, "screen") {
        owned("GNU Screen")
    } else if str_eq(s, "linux") {
        owned("Linux Console")
    } else {
        t.clone()
    }
}

impl TerminalModule {
    /// The module's title.
    pub fn name(&self) -> (r: &'static str)
        ensures
            r == kind_name(ModuleKind::Terminal),
    {
        "Terminal"
    }

    /// The terminal text for the session.
    pub fn collect(&self, env: &TermEnv) -> (r: Option<String>)
        ensures
            r matches Some(t) && t@ == terminal_text(*env),
    {
        if env.tilix_id {
            return Some(owned("Tilix"));
        }
        if env.konsole_version {
            return Some(owned("Konsole"));
        }
        match &env.kitty_window_id {
            Some(v) => if !v.as_str().is_empty() {
                return Some(owned("Kitty"));
            },
            None => {},
        }
        if env.alacritty_socket || env.alacritty_log {
            return Some(owned("Alacritty"));
        }
        match &env.wezterm_executable {
            Some(v) => if !v.as_str().is_empty() {
                return Some(owned("WezTerm"));
            },
            None => {},
        }
        if env.tmux {
            let inner = detect_inner_term(env);
            return Some(concat3("tmux (", inner.as_str(), ")"));
        }
        match &env.term_program {
            Some(t) => {
                return Some(program_name(t));
            },
            None => {},
        }
        match &env.terminal {
            Some(t) => if !t.as_str().is_empty() {
                return Some(file_name_or_self(t));
            },
            None => {},
        }
        match &env.term {
            Some(t) => Some(term_value_name(t)),
            None => Some(owned("Vamora Terminal")),
        }
    }
}

} // verus!
