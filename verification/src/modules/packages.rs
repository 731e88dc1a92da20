//! The packages module: the number of installed packages, from the first
//! package database that lists any.

use vstd::prelude::*;
use crate::modules::{ModuleKind, kind_name};
use crate::num::{dec, push_dec};
use crate::text::{has_prefix, has_suffix, lines, lines_seq, opt_str, owned, starts_with, str_eq, views};

verus! {

/// Shows the number of installed packages.
pub struct PackagesModule;

/// Number of lines of `ls` that satisfy `keep`, among the first `n`.
pub open spec fn count_lines(ls: Seq<Seq<char>>, keep: spec_fn(Seq<char>) -> bool) -> nat
    decreases ls.len(),
{
    if ls.len() == 0 {
        0
    } else {
        count_lines(ls.drop_last(), keep) + if keep(ls.last()) {
            1nat
        } else {
            0nat
        }
    }
}

/// A dpkg status line of an installed package.
pub open spec fn dpkg_installed(l: Seq<char>) -> bool {
    l == "Status: install ok installed"@
}

/// An apk database line that starts a package.
pub open spec fn apk_package(l: Seq<char>) -> bool {
    has_prefix(l, "P:"@)
}

/// A file name whose extension is `plist`: the name ends in `.plist` with
/// something before that dot.
pub open spec fn plist_file(name: Seq<char>) -> bool {
    has_suffix(name, ".plist"@) && name.len() > 6
}

/// Number of `.` bytes in `bytes`.
pub open spec fn dot_count(bytes: Seq<u8>) -> nat
    decreases bytes.len(),
{
    if bytes.len() == 0 {
        0
    } else {
        dot_count(bytes.drop_last()) + if bytes.last() == 46u8 {
            1nat
        } else {
            0nat
        }
    }
}

/// The package counts the module reads (`None` where a database could not be
/// read).
pub struct PackageSources {
    /// Contents of `/var/lib/dpkg/status`.
    pub dpkg_status: Option<String>,
    /// Number of directories in `/var/lib/pacman/local`.
    pub pacman_dirs: Option<usize>,
    /// Contents of `/lib/apk/db/installed`.
    pub apk_installed: Option<String>,
    /// File names in `/var/db/xbps`.
    pub xbps_files: Option<Vec<String>>,
}

/// `"MANAGER: N"` when the count is positive.
pub open spec fn count_text(manager: Seq<char>, n: nat) -> Option<Seq<char>> {
    if n > 0 {
        Some(manager + ": "@ + dec(n))
    } else {
        None
    }
}

/// The xbps count: the names with a `plist` extension.
pub open spec fn plist_count(names: Seq<Seq<char>>) -> nat {
    count_lines(names, |n: Seq<char>| plist_file(n))
}

/// What the module shows from the package databases: dpkg, pacman, apk and
/// xbps in turn, the first with a positive count.
pub open spec fn packages_text(src: PackageSources) -> Option<Seq<char>> {
    let dpkg = match opt_str(src.dpkg_status) {
        Some(c) => count_text("dpkg"@, count_lines(lines_seq(c), |l: Seq<char>| dpkg_installed(l))),
        None => None,
    };
    let pacman = match src.pacman_dirs {
        Some(n) => count_text("pacman"@, n as nat),
        None => None,
    };
    let apk = match opt_str(src.apk_installed) {
        Some(c) => count_text("apk"@, count_lines(lines_seq(c), |l: Seq<char>| apk_package(l))),
        None => None,
    };
    let xbps = match src.xbps_files {
        Some(v) => count_text("xbps"@, plist_count(views(v@))),
        None => None,
    };
    if dpkg is Some {
        dpkg
    } else if pacman is Some {
        pacman
    } else if apk is Some {
        apk
    } else {
        xbps
    }
}

/// Number of installed-package status lines in a dpkg status file.
fn count_dpkg(content: &str) -> (n: usize)
    ensures
        n == count_lines(lines_seq(content@), |l: Seq<char>| dpkg_installed(l)),
{
    let ls = lines(content);
    let ghost lv = views(ls@);
    let mut n: usize = 0;
    let mut i: usize = 0;
    while i < ls.len()
        invariant
            i <= ls.len(),
            n <= i,
            lv == views(ls@),
            lv == lines_seq(content@),
            n == count_lines(lv.take(i as int), |l: Seq<char>| dpkg_installed(l)),
        decreases ls.len() - i,
    {
        assert(lv.take(i + 1).drop_last() =~= lv.take(i as int));
        if str_eq(ls[i].as_str(), "Status: install ok installed") {
            n = n + 1;
        }
        i = i + 1;
    }
    assert(lv.take(ls.len() as int) =~= lv);
    n
}

/// Number of package lines in an apk database.
fn count_apk(content: &str) -> (n: usize)
    ensures
        n == count_lines(lines_seq(content@), |l: Seq<char>| apk_package(l)),
{
    let ls = lines(content);
    let ghost lv = views(ls@);
    let mut n: usize = 0;
    let mut i: usize = 0;
    while i < ls.len()
        invariant
            i <= ls.len(),
            n <= i,
            lv == views(ls@),
            lv == lines_seq(content@),
            n == count_lines(lv.take(i as int), |l: Seq<char>| apk_package(l)),
        decreases ls.len() - i,
    {
        assert(lv.take(i + 1).drop_last() =~= lv.take(i as int));
        if starts_with(ls[i].as_str(), "P:") {
            n = n + 1;
        }
        i = i + 1;
    }
    assert(lv.take(ls.len() as int) =~= lv);
    n
}

/// Number of names with a `plist` extension.
fn count_plists(names: &Vec<String>) -> (n: usize)
    ensures
        n == plist_count(views(names@)),
{
    let ghost nv = views(names@);
    let mut n: usize = 0;
    let mut i: usize = 0;
    while i < names.len()
        invariant
            i <= names.len(),
            n <= i,
            nv == views(names@),
            n == plist_count(nv.take(i as int)),
        decreases names.len() - i,
    {
        assert(nv.take(i + 1).drop_last() =~= nv.take(i as int));
        let v = crate::text::to_chars(names[i].as_str());
        if v.len() > 6 && crate::text::vec_occurs_at(&v, &crate::text::to_chars(".plist"), v.len() - 6) {
            proof {
                reveal_strlit(".plist");
            }
            n = n + 1;
        } else {
            proof {
                reveal_strlit(".plist");
            }
        }
        i = i + 1;
    }
    assert(nv.take(names.len() as int) =~= nv);
    n
}

/// `"MANAGER: N"` when the count is positive.
fn counted(manager: &str, n: usize) -> (r: Option<String>)
    ensures
        opt_str(r) == count_text(manager@, n as nat),
{
    if n > 0 {
        let mut r = owned(manager);
        crate::text::push_str(&mut r, ": ");
        push_dec(&mut r, n as u128);
        Some(r)
    } else {
        None
    }
}

impl PackagesModule {
    /// The module's title.
    pub fn name(&self) -> (r: &'static str)
        ensures
            r == kind_name(ModuleKind::Packages),
    {
        "Packages"
    }

    /// The package count from the databases.
    pub fn collect(&self, src: &PackageSources) -> (r: Option<String>)
        ensures
            opt_str(r) == packages_text(*src),
    {
        match &src.dpkg_status {
            Some(c) => {
                let n = count_dpkg(c.as_str());
                match counted("dpkg", n) {
                    Some(t) => {
                        return Some(t);
                    },
                    None => {},
                }
            },
            None => {},
        }
        match src.pacman_dirs {
            Some(n) => match counted("pacman", n) {
                Some(t) => {
                    return Some(t);
                },
                None => {},
            },
            None => {},
        }
        match &src.apk_installed {
            Some(c) => {
                let n = count_apk(c.as_str());
                match counted("apk", n) {
                    Some(t) => {
                        return Some(t);
                    },
                    None => {},
                }
            },
            None => {},
        }
        match &src.xbps_files {
            Some(v) => counted("xbps", count_plists(v)),
            None => None,
        }
    }

    /// The count from the output of `rpm -qa --qf .`: one dot per package.
    pub fn rpm_text(&self, output: &Vec<u8>) -> (r: Option<String>)
        ensures
            opt_str(r) == count_text("rpm"@, dot_count(output@)),
    {
        let mut n: usize = 0;
        let mut i: usize = 0;
        while i < output.len()
            invariant
                i <= output.len(),
                n <= i,
                n == dot_count(output@.take(i as int)),
            decreases output.len() - i,
        {
            assert(output@.take(i + 1).drop_last() =~= output@.take(i as int));
            if output[i] == 46u8 {
                n = n + 1;
            }
            i = i + 1;
        }
        assert(output@.take(output.len() as int) =~= output@);
        counted("rpm", n)
    }
}

} // verus!
