//! The TTY module: what standard input is attached to.

use vstd::prelude::*;
use crate::modules::{ModuleKind, kind_name};
use crate::text::{concat3, has_prefix, opt_str, owned, starts_with, str_eq, strip_all_prefix, trim_start_matches_str};

verus! {

/// Shows the kind of terminal device standard input is attached to.
pub struct TtyTypeModule;

/// What the module shows for the target of `/proc/self/fd/0` (`None` when it
/// cannot be read) and `$TERM` (`None` when unset).
pub open spec fn tty_text(target: Option<Seq<char>>, term: Option<Seq<char>>) -> Option<Seq<char>> {
    match target {
        Some(path) => Some(
            if has_prefix(path, "/dev/pts/"@) {
                "PTY (pts/"@ + strip_all_prefix(path, "/dev/pts/"@) + ")"@
            } else if has_prefix(path, "/dev/tty"@) {
                "TTY ("@ + strip_all_prefix(path, "/dev/"@) + ")"@
            } else if path == "/dev/null"@ {
                "none (piped/null)"@
            } else {
                path
            },
        ),
        None => match term {
            Some(t) => Some(
                if t == "linux"@ {
                    "TTY"@
                } else {
                    "PTY ("@ + t + ")"@
                },
            ),
            None => None,
        },
    }
}

impl TtyTypeModule {
    /// The module's title.
    pub fn name(&self) -> (r: &'static str)
        ensures
            r == kind_name(ModuleKind::TtyType),
    {
        "TTY"
    }

    /// The TTY text for the link target of standard input and `$TERM`.
    pub fn collect(&self, target: Option<String>, term: Option<String>) -> (r: Option<String>)
        ensures
            opt_str(r) == tty_text(opt_str(target), opt_str(term)),
    {
        match target {
            Some(path) => {
                let p = path.as_str();
                if starts_with(p, "/dev/pts/") {
                    let n = trim_start_matches_str(p, "/dev/pts/");
                    Some(concat3("PTY (pts/", n.as_str(), ")"))
                } else if starts_with(p, "/dev/tty") {
                    let n = trim_start_matches_str(p, "/dev/");
                    Some(concat3("TTY (", n.as_str(), ")"))
                } else if str_eq(p, "/dev/null") {
                    Some(owned("none (piped/null)"))
                } else {
                    Some(path)
                }
            },
            None => match term {
                Some(t) => if str_eq(t.as_str(), "linux") {
                    Some(owned("TTY"))
                } else {
                    Some(concat3("PTY (", t.as_str(), ")"))
                },
                None => None,
            },
        }
    }
}

} // verus!
