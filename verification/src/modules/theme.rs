//! The theme module: the GTK theme from `$GTK_THEME` or the GTK settings
//! files, else the KDE colour scheme.

use vstd::prelude::*;
use crate::modules::{ModuleKind, kind_name};
use crate::text::{
    first_some, has_prefix, lines, lines_seq, opt_str, split_char, split_seq, starts_with,
    str_eq, strip_char_seq, trim, trim_matches_char, trim_str, views,
};

verus! {

/// Shows the desktop theme.
pub struct ThemeModule;

/// The theme a GTK settings line names: a trimmed line starting with
/// `gtk-theme-name` gives the trimmed text after its first `=` (up to any
/// second `=`) without surrounding double quotes, when not empty.
pub open spec fn gtk_line_theme(line: Seq<char>) -> Option<Seq<char>> {
    let t = trim(line);
    if has_prefix(t, "gtk-theme-name"@) {
        let p = split_seq(t, '=');
        if p.len() > 1 {
            let v = strip_char_seq(trim(p[1]), '"');
            if v.len() > 0 {
                Some(v)
            } else {
                None
            }
        } else {
            None
        }
    } else {
        None
    }
}

/// The theme a GTK settings file names: its first line that names one.
pub open spec fn gtk_theme(content: Seq<char>) -> Option<Seq<char>> {
    first_some(lines_seq(content).map_values(|l: Seq<char>| gtk_line_theme(l)), 0)
}

/// The KDE colour scheme from line `i` on, given whether the lines before
/// left the scan inside the `[General]` group: the first non-blank
/// `ColorScheme=` value inside that group, followed by `" (KDE)"`.
pub open spec fn kde_from(ls: Seq<Seq<char>>, i: int, in_general: bool) -> Option<Seq<char>>
    decreases ls.len() - i,
{
    if i < 0 || i >= ls.len() {
        None
    } else {
        let t = trim(ls[i]);
        if t == "[General]"@ {
            kde_from(ls, i + 1, true)
        } else {
            let g = if has_prefix(t, "["@) {
                false
            } else {
                in_general
            };
            if g && has_prefix(t, "ColorScheme="@) && trim(split_seq(t, '=')[1]).len() > 0 {
                Some(trim(split_seq(t, '=')[1]) + " (KDE)"@)
            } else {
                kde_from(ls, i + 1, g)
            }
        }
    }
}

/// The contents of the files the module reads (`None` for a variable that is
/// unset or a file that could not be read).
pub struct ThemeSources {
    /// `$GTK_THEME`.
    pub gtk_theme_env: Option<String>,
    /// `~/.config/gtk-4.0/settings.ini`.
    pub gtk4: Option<String>,
    /// `~/.config/gtk-3.0/settings.ini`.
    pub gtk3: Option<String>,
    /// `~/.gtkrc-2.0`.
    pub gtk2: Option<String>,
    /// `~/.config/kdeglobals`.
    pub kdeglobals: Option<String>,
}

/// The theme a GTK file's contents name, if it was read.
pub open spec fn gtk_file_theme(content: Option<Seq<char>>) -> Option<Seq<char>> {
    match content {
        Some(c) => gtk_theme(c),
        None => None,
    }
}

/// What the module shows: the non-blank `$GTK_THEME`, else the GTK 4, 3 and
/// 2 settings in turn, else the KDE colour scheme.
pub open spec fn theme_text(src: ThemeSources) -> Option<Seq<char>> {
    match opt_str(src.gtk_theme_env) {
        Some(t) if trim(t).len() > 0 => Some(trim(t)),
        _ => if gtk_file_theme(opt_str(src.gtk4)) is Some {
            gtk_file_theme(opt_str(src.gtk4))
        } else if gtk_file_theme(opt_str(src.gtk3)) is Some {
            gtk_file_theme(opt_str(src.gtk3))
        } else if gtk_file_theme(opt_str(src.gtk2)) is Some {
            gtk_file_theme(opt_str(src.gtk2))
        } else {
            match opt_str(src.kdeglobals) {
                Some(k) => kde_from(lines_seq(k), 0, false),
                None => None,
            }
        },
    }
}

fn gtk_line(line: &str) -> (r: Option<String>)
    ensures
        opt_str(r) == gtk_line_theme(line@),
{
    let t = trim_str(line);
    if !starts_with(t.as_str(), "gtk-theme-name") {
        return None;
    }
    let p = split_char(t.as_str(), '=');
    if p.len() > 1 {
        let vt = trim_str(p[1].as_str());
        let v = trim_matches_char(vt.as_str(), '"');
        if v.as_str().is_empty() {
            None
        } else {
            Some(v)
        }
    } else {
        None
    }
}

/// The GTK theme a settings file (`settings.ini` or `.gtkrc-2.0`) names.
pub fn read_gtk_theme(content: &str) -> (r: Option<String>)
    ensures
        opt_str(r) == gtk_theme(content@),
{
    let ls = lines(content);
    let ghost m = lines_seq(content@).map_values(|l: Seq<char>| gtk_line_theme(l));
    let mut i: usize = 0;
    while i < ls.len()
        invariant
            i <= ls.len(),
            views(ls@) == lines_seq(content@),
            m == lines_seq(content@).map_values(|l: Seq<char>| gtk_line_theme(l)),
            first_some(m, 0) == first_some(m, i as int),
        decreases ls.len() - i,
    {
        assert(m[i as int] == gtk_line_theme(ls@[i as int]@));
        match gtk_line(ls[i].as_str()) {
            Some(t) => {
                return Some(t);
            },
            None => {},
        }
        i = i + 1;
    }
    None
}

/// The KDE colour scheme in the contents of `kdeglobals`.
pub fn read_kde_scheme(content: &str) -> (r: Option<String>)
    ensures
        opt_str(r) == kde_from(lines_seq(content@), 0, false),
{
    let ls = lines(content);
    let ghost lv = views(ls@);
    let mut in_general = false;
    let mut i: usize = 0;
    while i < ls.len()
        invariant
            i <= ls.len(),
            lv == views(ls@),
            lv == lines_seq(content@),
            kde_from(lv, 0, false) == kde_from(lv, i as int, in_general),
        decreases ls.len() - i,
    {
        let t = trim_str(ls[i].as_str());
        assert(t@ == trim(lv[i as int]));
        if str_eq(t.as_str(), "[General]") {
            in_general = true;
        } else {
            if starts_with(t.as_str(), "[") {
                in_general = false;
            }
            if in_general && starts_with(t.as_str(), "ColorScheme=") {
                let p = split_char(t.as_str(), '=');
                proof {
                    lemma_split_has_two(t@);
                }
                let v = trim_str(p[1].as_str());
                if !v.as_str().is_empty() {
                    let mut r = v;
                    crate::text::push_str(&mut r, " (KDE)");
                    return Some(r);
                }
            }
        }
        i = i + 1;
    }
    None
}

/// A text starting with `ColorScheme=` splits into at least two pieces at `=`.
proof fn lemma_split_has_two(t: Seq<char>)
    requires
        has_prefix(t, "ColorScheme="@),
    ensures
        split_seq(t, '=').len() > 1,
{
    reveal_strlit("ColorScheme=");
    assert(t.subrange(0, 12)[11] == t[11]);
    crate::text::lemma_split_len_contains(t, '=', 11);
}

impl ThemeModule {
    /// The module's title.
    pub fn name(&self) -> (r: &'static str)
        ensures
            r == kind_name(ModuleKind::Theme),
    {
        "Theme"
    }

    /// The theme text for the sources.
    pub fn collect(&self, src: &ThemeSources) -> (r: Option<String>)
        ensures
            opt_str(r) == theme_text(*src),
    {
        match &src.gtk_theme_env {
            Some(t) => {
                let tt = trim_str(t.as_str());
                if !tt.as_str().is_empty() {
                    return Some(tt);
                }
            },
            None => {},
        }
        match &src.gtk4 {
            Some(c) => match read_gtk_theme(c.as_str()) {
                Some(t) => {
                    return Some(t);
                },
                None => {},
            },
            None => {},
        }
        match &src.gtk3 {
            Some(c) => match read_gtk_theme(c.as_str()) {
                Some(t) => {
                    return Some(t);
                },
                None => {},
            },
            None => {},
        }
        match &src.gtk2 {
            Some(c) => match read_gtk_theme(c.as_str()) {
                Some(t) => {
                    return Some(t);
                },
                None => {},
            },
            None => {},
        }
        match &src.kdeglobals {
            Some(k) => read_kde_scheme(k.as_str()),
            None => None,
        }
    }
}

} // verus!
