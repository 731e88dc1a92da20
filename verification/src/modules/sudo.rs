//! The sudo module: whether the user can run commands as root.

use vstd::prelude::*;
use crate::modules::{ModuleKind, kind_name};
use crate::text::{lines, lines_seq, owned, split_char, split_seq, str_eq, trim, trim_str, views};

verus! {

/// Shows whether the user has administrator rights.
pub struct SudoModule;

/// `user` is among the comma-separated members (each trimmed).
pub open spec fn member_of(members: Seq<char>, user: Seq<char>) -> bool {
    exists|j: int| 0 <= j < split_seq(members, ',').len() && trim(#[trigger] split_seq(members, ',')[j]) == user
}

/// An `/etc/group` line that makes `user` an administrator: a line of at
/// least four `:`-separated fields whose group is `sudo`, `wheel`, `admin` or
/// `sudoers` and whose member list holds the user.
pub open spec fn grants(line: Seq<char>, user: Seq<char>) -> bool {
    let p = split_seq(line, ':');
    p.len() >= 4 && (p[0] == "sudo"@ || p[0] == "wheel"@ || p[0] == "admin"@ || p[0] == "sudoers"@)
        && member_of(p[3], user)
}

/// `user` is a non-empty name that some line of `/etc/group` grants
/// administrator rights.
pub open spec fn in_sudo_group(user: Seq<char>, group: Seq<char>) -> bool {
    user.len() > 0 && exists|i: int| 0 <= i < lines_seq(group).len() && grants(#[trigger] lines_seq(group)[i], user)
}

/// What the module shows: passwordless sudo, then group membership, then a
/// user id of 0 (`id -u` output, trimmed), else `"no"`.
pub open spec fn sudo_text(passwordless: bool, user: Seq<char>, group: Seq<char>, uid: Option<Seq<char>>) -> Seq<char> {
    if passwordless {
        "yes (passwordless)"@
    } else if in_sudo_group(user, group) {
        "yes (group member)"@
    } else if uid matches Some(u) && trim(u) == "0"@ {
        "root"@
    } else {
        "no"@
    }
}

fn member_listed(members: &str, user: &str) -> (b: bool)
    ensures
        b == member_of(members@, user@),
{
    let ms = split_char(members, ',');
    let mut j: usize = 0;
    while j < ms.len()
        invariant
            j <= ms.len(),
            views(ms@) == split_seq(members@, ','),
            forall|k: int| 0 <= k < j ==> trim(#[trigger] split_seq(members@, ',')[k]) != user@,
        decreases ms.len() - j,
    {
        let t = trim_str(ms[j].as_str());
        assert(split_seq(members@, ',')[j as int] == ms@[j as int]@);
        if str_eq(t.as_str(), user) {
            return true;
        }
        j = j + 1;
    }
    false
}

fn line_grants(line: &str, user: &str) -> (b: bool)
    ensures
        b == grants(line@, user@),
{
    let p = split_char(line, ':');
    if p.len() < 4 {
        return false;
    }
    let g = p[0].as_str();
    if str_eq(g, "sudo") || str_eq(g, "wheel") || str_eq(g, "admin") || str_eq(g, "sudoers") {
        member_listed(p[3].as_str(), user)
    } else {
        false
    }
}

/// Whether a non-empty `user` is a member of `sudo`, `wheel`, `admin` or
/// `sudoers` in the contents of `/etc/group`.
pub fn is_in_sudo_group(user: &str, group: &str) -> (b: bool)
    ensures
        b == in_sudo_group(user@, group@),
{
    if user.is_empty() {
        return false;
    }
    let ls = lines(group);
    let mut i: usize = 0;
    while i < ls.len()
        invariant
            i <= ls.len(),
            user@.len() > 0,
            views(ls@) == lines_seq(group@),
            forall|k: int| 0 <= k < i ==> !grants(#[trigger] lines_seq(group@)[k], user@),
        decreases ls.len() - i,
    {
        assert(lines_seq(group@)[i as int] == ls@[i as int]@);
        if line_grants(ls[i].as_str(), user) {
            return true;
        }
        i = i + 1;
    }
    false
}

impl SudoModule {
    /// The module's title.
    pub fn name(&self) -> (r: &'static str)
        ensures
            r == kind_name(ModuleKind::SudoStatus),
    {
        "Sudo"
    }

    /// The sudo text, given whether `sudo -n true` succeeded, the user name
    /// (`$USER`, else `$LOGNAME`, else empty), the contents of `/etc/group`
    /// (empty when unreadable) and the output of `id -u`.
    pub fn collect(&self, passwordless: bool, user: &str, group: &str, uid: &Option<String>) -> (r:
        Option<String>)
        ensures
            r matches Some(t) && t@ == sudo_text(
                passwordless,
                user@,
                group@,
                crate::text::opt_str(*uid),
            ),
    {
        if passwordless {
            return Some(owned("yes (passwordless)"));
        }
        if is_in_sudo_group(user, group) {
            return Some(owned("yes (group member)"));
        }
        match uid {
            Some(u) => {
                let t = trim_str(u.as_str());
                if str_eq(t.as_str(), "0") {
                    return Some(owned("root"));
                }
            },
            None => {},
        }
        Some(owned("no"))
    }
}

} // verus!
