//! The filesystem module: the root filesystem's type, from `/proc/mounts`
//! or else from `df -T /`.

use vstd::prelude::*;
use crate::modules::{ModuleKind, kind_name};
use crate::text::{first_some, lines, lines_seq, opt_str, str_eq, views, words, words_seq};

verus! {

/// Shows the type of the root filesystem.
pub struct FsTypeModule;

/// Filesystem types that do not count as the root filesystem.
pub open spec fn pseudo_fs(t: Seq<char>) -> bool {
    t == "tmpfs"@ || t == "proc"@ || t == "sysfs"@ || t == "devtmpfs"@ || t == "none"@
}

/// The type a `/proc/mounts` line gives for `/`, unless it is a pseudo
/// filesystem.
pub open spec fn mount_fs(line: Seq<char>) -> Option<Seq<char>> {
    let p = words_seq(line);
    if p.len() >= 3 && p[1] == "/"@ && !pseudo_fs(p[2]) {
        Some(p[2])
    } else {
        None
    }
}

/// The second word of the second line of `df -T /` output.
pub open spec fn df_fs(out: Seq<char>) -> Option<Seq<char>> {
    let ls = lines_seq(out);
    if ls.len() > 1 && words_seq(ls[1]).len() >= 2 {
        Some(words_seq(ls[1])[1])
    } else {
        None
    }
}

/// What the module shows for the contents of `/proc/mounts` and the output
/// of `df -T /` (`None` where they could not be read).
pub open spec fn fs_text(mounts: Option<Seq<char>>, df: Option<Seq<char>>) -> Option<Seq<char>> {
    let from_mounts = match mounts {
        Some(m) => first_some(lines_seq(m).map_values(|l: Seq<char>| mount_fs(l)), 0),
        None => None,
    };
    if from_mounts is Some {
        from_mounts
    } else {
        match df {
            Some(d) => df_fs(d),
            None => None,
        }
    }
}

fn mount_line_fs(line: &str) -> (r: Option<String>)
    ensures
        opt_str(r) == mount_fs(line@),
{
    let p = words(line);
    if p.len() >= 3 && str_eq(p[1].as_str(), "/") {
        let t = p[2].as_str();
        if !(str_eq(t, "tmpfs") || str_eq(t, "proc") || str_eq(t, "sysfs") || str_eq(t, "devtmpfs")
            || str_eq(t, "none")) {
            return Some(p[2].clone());
        }
    }
    None
}

fn root_fs_in_mounts(m: &str) -> (r: Option<String>)
    ensures
        opt_str(r) == first_some(lines_seq(m@).map_values(|l: Seq<char>| mount_fs(l)), 0),
{
    let ls = lines(m);
    let ghost mm = lines_seq(m@).map_values(|l: Seq<char>| mount_fs(l));
    let mut i: usize = 0;
    while i < ls.len()
        invariant
            i <= ls.len(),
            views(ls@) == lines_seq(m@),
            mm == lines_seq(m@).map_values(|l: Seq<char>| mount_fs(l)),
            first_some(mm, 0) == first_some(mm, i as int),
        decreases ls.len() - i,
    {
        assert(mm[i as int] == mount_fs(ls@[i as int]@));
        match mount_line_fs(ls[i].as_str()) {
            Some(t) => {
                return Some(t);
            },
            None => {},
        }
        i = i + 1;
    }
    None
}

fn df_line_fs(out: &str) -> (r: Option<String>)
    ensures
        opt_str(r) == df_fs(out@),
{
    let ls = lines(out);
    if ls.len() > 1 {
        let p = words(ls[1].as_str());
        if p.len() >= 2 {
            return Some(p[1].clone());
        }
    }
    None
}

impl FsTypeModule {
    /// The module's title.
    pub fn name(&self) -> (r: &'static str)
        ensures
            r == kind_name(ModuleKind::FsType),
    {
        "Filesystem"
    }

    /// The root filesystem's type from `/proc/mounts`, else from `df -T /`.
    pub fn collect(&self, mounts: &Option<String>, df: &Option<String>) -> (r: Option<String>)
        ensures
            opt_str(r) == fs_text(opt_str(*mounts), opt_str(*df)),
    {
        match mounts {
            Some(m) => match root_fs_in_mounts(m.as_str()) {
                Some(t) => {
                    return Some(t);
                },
                None => {},
            },
            None => {},
        }
        match df {
            Some(d) => df_line_fs(d.as_str()),
            None => None,
        }
    }
}

} // verus!
