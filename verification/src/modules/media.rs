//! The media module: what a media player is playing, from `playerctl` or
//! the MPRIS interface over D-Bus.

use vstd::prelude::*;
use crate::text::{
    char_width, contains, contains_seq, first_some, lines, lines_seq, opt_str, str_eq, string_of,
    to_chars, trim, trim_str, views,
};

verus! {

/// Shows the track that is playing.
pub struct MediaModule;

/// The index of the last `c` in `s`.
pub open spec fn last_index_of(s: Seq<char>, c: char) -> Option<int>
    decreases s.len(),
{
    if s.len() == 0 {
        None
    } else if s.last() == c {
        Some(s.len() - 1)
    } else {
        last_index_of(s.drop_last(), c)
    }
}

/// The first line of D-Bus output that mentions `xesam:title`.
pub open spec fn title_line(out: Seq<char>) -> Option<Seq<char>> {
    first_some(
        lines_seq(out).map_values(
            |l: Seq<char>|
                if contains_seq(l, "xesam:title"@) {
                    Some(l)
                } else {
                    None
                },
        ),
        0,
    )
}

/// The D-Bus title line's text that slicing cannot take: its last `"` has
/// no `"` before it, and the text from its second byte on cannot be cut
/// there (the quote opens the line, or the line opens with a multi-byte
/// character).
pub open spec fn title_cut_fails(out: Seq<char>) -> bool {
    match title_line(out) {
        Some(l) => match last_index_of(l, '"') {
            Some(p) => last_index_of(l.take(p), '"') is None && (p == 0 || char_width(l[0]) > 1),
            None => false,
        },
        None => false,
    }
}

/// The title in D-Bus output: on the title line, the text between the last
/// `"` and the `"` before it (or from the second character when there is
/// none before), when not empty.
pub open spec fn dbus_title(out: Seq<char>) -> Option<Seq<char>> {
    match title_line(out) {
        Some(l) => match last_index_of(l, '"') {
            Some(p) => {
                let start = match last_index_of(l.take(p), '"') {
                    Some(q) => q + 1,
                    None => 1,
                };
                let t = l.subrange(start, p);
                if t.len() > 0 {
                    Some(t)
                } else {
                    None
                }
            },
            None => None,
        },
        None => None,
    }
}

/// What `playerctl` prints, trimmed, when it is neither empty nor `" - "`.
pub open spec fn player_text(out: Seq<char>, reject_dash: bool) -> Option<Seq<char>> {
    let s = trim(out);
    if s.len() > 0 && !(reject_dash && s == " - "@) {
        Some(s)
    } else {
        None
    }
}

/// What the module shows for the output of `playerctl` with the
/// `"{{artist}} - {{title}}"` format, with just the title, and of the
/// D-Bus query (`None` where the command failed).
pub open spec fn media_text(pair: Option<Seq<char>>, title: Option<Seq<char>>, dbus: Option<Seq<char>>) -> Option<Seq<char>> {
    let a = match pair {
        Some(o) => player_text(o, true),
        None => None,
    };
    let b = match title {
        Some(o) => player_text(o, false),
        None => None,
    };
    if a is Some {
        a
    } else if b is Some {
        b
    } else {
        match dbus {
            Some(o) => dbus_title(o),
            None => None,
        }
    }
}

fn last_quote(v: &Vec<char>, end: usize) -> (r: Option<usize>)
    requires
        end <= v.len(),
    ensures
        match r {
            Some(k) => k < end && last_index_of(v@.take(end as int), '"') == Some(k as int),
            None => last_index_of(v@.take(end as int), '"') is None,
        },
{
    let mut i: usize = end;
    while i > 0
        invariant
            i <= end <= v.len(),
            last_index_of(v@.take(end as int), '"') == last_index_of(v@.take(i as int), '"'),
        decreases i,
    {
        assert(v@.take(i as int).drop_last() =~= v@.take(i - 1));
        if v[i - 1] == '"' {
            return Some(i - 1);
        }
        i = i - 1;
    }
    None
}

fn first_title_line(out: &str) -> (r: Option<String>)
    ensures
        opt_str(r) == title_line(out@),
{
    let ls = lines(out);
    let ghost m = lines_seq(out@).map_values(
        |l: Seq<char>|
            if contains_seq(l, "xesam:title"@) {
                Some(l)
            } else {
                None
            },
    );
    let mut i: usize = 0;
    while i < ls.len()
        invariant
            i <= ls.len(),
            views(ls@) == lines_seq(out@),
            m == lines_seq(out@).map_values(
                |l: Seq<char>|
                    if contains_seq(l, "xesam:title"@) {
                        Some(l)
                    } else {
                        None
                    },
            ),
            title_line(out@) == first_some(m, 0),
            first_some(m, 0) == first_some(m, i as int),
        decreases ls.len() - i,
    {
        assert(m[i as int] == (if contains_seq(ls@[i as int]@, "xesam:title"@) {
            Some(ls@[i as int]@)
        } else {
            None
        }));
        if contains(ls[i].as_str(), "xesam:title") {
            return Some(ls[i].clone());
        }
        i = i + 1;
    }
    None
}

fn title_from_dbus(out: &str) -> (r: Option<String>)
    requires
        !title_cut_fails(out@),
    ensures
        opt_str(r) == dbus_title(out@),
{
    let line = match first_title_line(out) {
        Some(l) => l,
        None => {
            return None;
        },
    };
    let v = to_chars(line.as_str());
    assert(v@.take(v.len() as int) =~= v@);
    let p = match last_quote(&v, v.len()) {
        Some(p) => p,
        None => {
            return None;
        },
    };
    let start = match last_quote(&v, p) {
        Some(q) => q + 1,
        None => 1,
    };
    let t = string_of(&v, start, p);
    if t.as_str().is_empty() {
        None
    } else {
        Some(t)
    }
}

impl MediaModule {
    /// The module's title.
    pub fn name(&self) -> (r: &'static str)
        ensures
            r@ == "Media"@,
    {
        "Media"
    }

    /// The track text for the three queries' outputs. The D-Bus output is
    /// read only when neither `playerctl` query gave a text; then its title
    /// line must be one that can be cut.
    pub fn collect(&self, pair: &Option<String>, title: &Option<String>, dbus: &Option<String>) -> (r:
        Option<String>)
        requires
            media_text(opt_str(*pair), opt_str(*title), None) is None ==> (dbus matches Some(d)
                ==> !title_cut_fails(d@)),
        ensures
            opt_str(r) == media_text(opt_str(*pair), opt_str(*title), opt_str(*dbus)),
    {
        match pair {
            Some(o) => {
                let s = trim_str(o.as_str());
                if !s.as_str().is_empty() && !str_eq(s.as_str(), " - ") {
                    return Some(s);
                }
            },
            None => {},
        }
        match title {
            Some(o) => {
                let s = trim_str(o.as_str());
                if !s.as_str().is_empty() {
                    return Some(s);
                }
            },
            None => {},
        }
        match dbus {
            Some(o) => title_from_dbus(o.as_str()),
            None => None,
        }
    }
}

} // verus!
