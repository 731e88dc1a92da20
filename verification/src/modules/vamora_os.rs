//! The VamoraOS release modules, and the parser of the release file
//! (`KEY=value` lines; blank lines and `#` comments are skipped).

use vstd::prelude::*;
use crate::modules::{ModuleKind, kind_name};
use crate::text::{
    concat3, lemma_pair_views_push, lines, lines_seq, opt_str, pair_views, strip_char_seq, string_of,
    to_chars, trim, trim_matches_char, trim_str, views,
};

verus! {

/// Shows the VamoraSys version (`VAMORASYS_VERSION`).
pub struct VamoraSysVersionModule;

/// Shows the VMF package version (`VERSION`).
pub struct VmfVersionModule;

/// Shows the version and code name together (`VERSION VERSION_CODENAME`).
pub struct VamoraVersionCodenameModule;

/// The index of the first `c` in `s` at or after `i`.
pub open spec fn find_char_from(s: Seq<char>, c: char, i: int) -> Option<int>
    decreases s.len() - i,
{
    if i < 0 || i >= s.len() {
        None
    } else if s[i] == c {
        Some(i)
    } else {
        find_char_from(s, c, i + 1)
    }
}

/// The entry a release-file line holds: for a trimmed line that is neither
/// empty nor a `#` comment and has an `=`, the trimmed text before the first
/// `=` and the trimmed text after it without surrounding double quotes.
pub open spec fn vmf_entry(line: Seq<char>) -> Option<(Seq<char>, Seq<char>)> {
    let t = trim(line);
    if t.len() == 0 || t[0] == '#' {
        None
    } else {
        match find_char_from(t, '=', 0) {
            None => None,
            Some(e) => Some((trim(t.take(e)), strip_char_seq(trim(t.skip(e + 1)), '"'))),
        }
    }
}

/// The entries of a release file's lines, in order.
pub open spec fn vmf_entries(ls: Seq<Seq<char>>) -> Seq<(Seq<char>, Seq<char>)>
    decreases ls.len(),
{
    if ls.len() == 0 {
        Seq::empty()
    } else {
        let prev = vmf_entries(ls.drop_last());
        match vmf_entry(ls.last()) {
            Some(e) => prev.push(e),
            None => prev,
        }
    }
}

/// The value of `key`: the last entry with that key wins.
pub open spec fn vmf_lookup(es: Seq<(Seq<char>, Seq<char>)>, key: Seq<char>) -> Option<Seq<char>>
    decreases es.len(),
{
    if es.len() == 0 {
        None
    } else if es.last().0 == key {
        Some(es.last().1)
    } else {
        vmf_lookup(es.drop_last(), key)
    }
}

/// The value of `key` in a release file's contents (`None` when the file
/// could not be read).
pub open spec fn vmf_field(content: Option<Seq<char>>, key: Seq<char>) -> Option<Seq<char>> {
    match content {
        None => None,
        Some(c) => vmf_lookup(vmf_entries(lines_seq(c)), key),
    }
}

/// A field's value when it is present and not empty.
pub open spec fn nonempty_field(v: Option<Seq<char>>) -> Option<Seq<char>> {
    match v {
        Some(s) => if s.len() > 0 {
            Some(s)
        } else {
            None
        },
        None => None,
    }
}

/// The entry of one release-file line.
pub fn parse_vmf_line(line: &str) -> (r: Option<(String, String)>)
    ensures
        match r {
            Some(e) => vmf_entry(line@) == Some((e.0@, e.1@)),
            None => vmf_entry(line@) is None,
        },
{
    let t = trim_str(line);
    let tv = to_chars(t.as_str());
    if tv.len() == 0 || tv[0] == '#' {
        return None;
    }
    let mut e: usize = 0;
    while e < tv.len() && tv[e] != '='
        invariant
            e <= tv.len(),
            tv@ == trim(line@),
            find_char_from(tv@, '=', 0) == find_char_from(tv@, '=', e as int),
        decreases tv.len() - e,
    {
        e = e + 1;
    }
    if e == tv.len() {
        return None;
    }
    let key_raw = string_of(&tv, 0, e);
    let val_raw = string_of(&tv, e + 1, tv.len());
    assert(key_raw@ == tv@.take(e as int));
    assert(val_raw@ == tv@.skip(e + 1));
    let key = trim_str(key_raw.as_str());
    let val_t = trim_str(val_raw.as_str());
    let val = trim_matches_char(val_t.as_str(), '"');
    Some((key, val))
}

/// The entries of a release file's contents, in line order; `None` when it
/// holds none.
pub fn parse_vmf(content: &str) -> (r: Option<Vec<(String, String)>>)
    ensures
        match r {
            Some(v) => pair_views(v@) == vmf_entries(lines_seq(content@)) && v@.len() > 0,
            None => vmf_entries(lines_seq(content@)).len() == 0,
        },
{
    let ls = lines(content);
    let ghost lv = views(ls@);
    let mut out: Vec<(String, String)> = Vec::new();
    let mut i: usize = 0;
    while i < ls.len()
        invariant
            i <= ls.len(),
            lv == views(ls@),
            lv == lines_seq(content@),
            pair_views(out@) == vmf_entries(lv.take(i as int)),
        decreases ls.len() - i,
    {
        assert(lv.take(i + 1).drop_last() == lv.take(i as int));
        assert(lv.take(i + 1).last() == ls@[i as int]@);
        match parse_vmf_line(ls[i].as_str()) {
            Some(e) => {
                proof {
                    lemma_pair_views_push(out@, e);
                }
                out.push(e);
            },
            None => {},
        }
        i = i + 1;
    }
    assert(lv.take(ls.len() as int) =~= lv);
    if out.len() == 0 {
        None
    } else {
        Some(out)
    }
}

/// The value of `key` among parsed entries: the last entry with that key.
pub fn vmf_get(entries: &Vec<(String, String)>, key: &str) -> (r: Option<String>)
    ensures
        opt_str(r) == vmf_lookup(pair_views(entries@), key@),
{
    let ghost pv = pair_views(entries@);
    let mut i: usize = entries.len();
    assert(pv.take(i as int) =~= pv);
    while i > 0
        invariant
            i <= entries.len(),
            pv == pair_views(entries@),
            vmf_lookup(pv, key@) == vmf_lookup(pv.take(i as int), key@),
        decreases i,
    {
        let ghost t = pv.take(i as int);
        assert(t.drop_last() == pv.take(i - 1));
        assert(t.last() == pv[i - 1]);
        if crate::text::str_eq(entries[i - 1].0.as_str(), key) {
            let v = entries[i - 1].1.clone();
            assert(v@ == entries@[i - 1].1@);
            return Some(v);
        }
        i = i - 1;
    }
    assert(pv.take(0) =~= Seq::<(Seq<char>, Seq<char>)>::empty());
    None
}

/// The value of `key` in a release file's contents.
pub fn vmf_field_of(content: &Option<String>, key: &str) -> (r: Option<String>)
    ensures
        opt_str(r) == vmf_field(opt_str(*content), key@),
{
    match content {
        None => None,
        Some(c) => match parse_vmf(c.as_str()) {
            None => {
                assert(vmf_entries(lines_seq(c@)) =~= Seq::<(Seq<char>, Seq<char>)>::empty());
                None
            },
            Some(es) => vmf_get(&es, key),
        },
    }
}

/// The field when it is present and not empty.
fn keep_nonempty(v: Option<String>) -> (r: Option<String>)
    ensures
        opt_str(r) == nonempty_field(opt_str(v)),
{
    match v {
        Some(s) => if s.as_str().is_empty() {
            None
        } else {
            Some(s)
        },
        None => None,
    }
}

/// What the combined module shows for the version and code name.
pub open spec fn version_codename_text(version: Seq<char>, codename: Seq<char>) -> Option<Seq<char>> {
    if version.len() > 0 && codename.len() > 0 {
        Some(version + " "@ + codename)
    } else if version.len() > 0 {
        Some(version)
    } else if codename.len() > 0 {
        Some(codename)
    } else {
        None
    }
}

impl VamoraSysVersionModule {
    /// The module's title.
    pub fn name(&self) -> (r: &'static str)
        ensures
            r == kind_name(ModuleKind::VamoraSysVersion),
    {
        "VamoraSys"
    }

    /// `VAMORASYS_VERSION` from the release file's contents, when not empty.
    pub fn collect(&self, release: &Option<String>) -> (r: Option<String>)
        ensures
            opt_str(r) == nonempty_field(vmf_field(opt_str(*release), "VAMORASYS_VERSION"@)),
    {
        keep_nonempty(vmf_field_of(release, "VAMORASYS_VERSION"))
    }
}

impl VmfVersionModule {
    /// The module's title.
    pub fn name(&self) -> (r: &'static str)
        ensures
            r == kind_name(ModuleKind::VmfVersion),
    {
        "VMF Version"
    }

    /// `VERSION` from the release file's contents, when not empty.
    pub fn collect(&self, release: &Option<String>) -> (r: Option<String>)
        ensures
            opt_str(r) == nonempty_field(vmf_field(opt_str(*release), "VERSION"@)),
    {
        keep_nonempty(vmf_field_of(release, "VERSION"))
    }
}

impl VamoraVersionCodenameModule {
    /// The module's title.
    pub fn name(&self) -> (r: &'static str)
        ensures
            r == kind_name(ModuleKind::VamoraVersionCodename),
    {
        "Vamora"
    }

    /// `VERSION` and `VERSION_CODENAME` from the release file's contents.
    pub fn collect(&self, release: &Option<String>) -> (r: Option<String>)
        ensures
            opt_str(r) == version_codename_text(
                crate::modules::android::or_empty(vmf_field(opt_str(*release), "VERSION"@)),
                crate::modules::android::or_empty(vmf_field(opt_str(*release), "VERSION_CODENAME"@)),
            ),
    {
        let version = match vmf_field_of(release, "VERSION") {
            Some(v) => v,
            None => String::new(),
        };
        let codename = match vmf_field_of(release, "VERSION_CODENAME") {
            Some(v) => v,
            None => String::new(),
        };
        if !version.as_str().is_empty() && !codename.as_str().is_empty() {
            Some(concat3(version.as_str(), " ", codename.as_str()))
        } else if !version.as_str().is_empty() {
            Some(version)
        } else if !codename.as_str().is_empty() {
            Some(codename)
        } else {
            None
        }
    }
}

} // verus!
