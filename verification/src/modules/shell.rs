//! The shell module: the file name of `$SHELL`.

use vstd::prelude::*;
use crate::modules::{ModuleKind, kind_name};
use crate::text::{file_name, opt_str, path_file_name};

verus! {

/// Shows the login shell.
pub struct ShellModule;

/// What the module shows for a `$SHELL` value: its file name, or the value
/// itself when the path has no file name.
pub open spec fn shell_text(shell: Seq<char>) -> Seq<char> {
    match path_file_name(shell) {
        Some(n) => n,
        None => shell,
    }
}

impl ShellModule {
    /// The module's title.
    pub fn name(&self) -> (r: &'static str)
        ensures
            r == kind_name(ModuleKind::Shell),
    {
        "Shell"
    }

    /// The shell's name, given `$SHELL` (`None` when it is unset).
    pub fn collect(&self, shell: Option<String>) -> (r: Option<String>)
        ensures
            match opt_str(shell) {
                Some(s) => opt_str(r) == Some(shell_text(s)),
                None => r is None,
            },
    {
        match shell {
            None => None,
            Some(s) => match file_name(s.as_str()) {
                Some(n) => Some(n),
                None => Some(s),
            },
        }
    }
}

} // verus!
