//! The resolution module: the current screen modes, from `xrandr`, the DRM
//! connectors' mode lists, or `wlr-randr`, asked in that order.

use vstd::prelude::*;
use crate::modules::{ModuleKind, kind_name};
use crate::num::is_digit;
use crate::text::{
    contains, contains_seq, first_some, has_char, has_prefix, join, join_seq, lemma_views_push, lines,
    lines_seq, opt_str, split_char, split_seq, starts_with, str_eq, trim, trim_start,
    trim_start_string, trim_str, views, words, words_seq,
};

verus! {

/// Shows the screen resolution.
pub struct ResolutionModule;

/// An `xrandr` token that gives a mode: it holds an `x` and starts with a
/// digit; its text before any `+` is the mode when that still holds an `x`.
pub open spec fn xrandr_token(tok: Seq<char>) -> Option<Seq<char>> {
    if tok.contains('x') && tok.len() > 0 && is_digit(tok[0]) {
        let r = split_seq(tok, '+')[0];
        if r.contains('x') {
            Some(r)
        } else {
            None
        }
    } else {
        None
    }
}

/// The mode an `xrandr` line gives: the first mode token of a line that
/// holds `" connected"`.
pub open spec fn xrandr_line(l: Seq<char>) -> Option<Seq<char>> {
    if contains_seq(l, " connected"@) {
        first_some(words_seq(l).map_values(|t: Seq<char>| xrandr_token(t)), 0)
    } else {
        None
    }
}

/// The mode `xrandr --query` output gives.
pub open spec fn xrandr_mode(out: Seq<char>) -> Option<Seq<char>> {
    first_some(lines_seq(out).map_values(|l: Seq<char>| xrandr_line(l)), 0)
}

/// The mode a connector's `modes` file lists first: its trimmed first line
/// when not empty and holding an `x`.
pub open spec fn drm_mode(content: Seq<char>) -> Option<Seq<char>> {
    let ls = lines_seq(content);
    if ls.len() > 0 && trim(ls[0]).len() > 0 && trim(ls[0]).contains('x') {
        Some(trim(ls[0]))
    } else {
        None
    }
}

/// The distinct first modes of the connectors, in order (`None` for a
/// `modes` file that could not be read).
pub open spec fn drm_modes(cs: Seq<Option<Seq<char>>>) -> Seq<Seq<char>>
    decreases cs.len(),
{
    if cs.len() == 0 {
        Seq::empty()
    } else {
        let prev = drm_modes(cs.drop_last());
        match cs.last() {
            Some(c) => match drm_mode(c) {
                Some(m) => if prev.contains(m) {
                    prev
                } else {
                    prev.push(m)
                },
                None => prev,
            },
            None => prev,
        }
    }
}

/// A `wlr-randr` word that gives a mode: it holds an `x` and starts with a
/// digit.
pub open spec fn wlr_token(p: Seq<char>) -> Option<Seq<char>> {
    if p.contains('x') && p.len() > 0 && is_digit(p[0]) {
        Some(p)
    } else {
        None
    }
}

/// The mode a `wlr-randr` line gives: the first mode word of a line that
/// starts with `Mode:` (after blanks) or holds `current`.
pub open spec fn wlr_line(l: Seq<char>) -> Option<Seq<char>> {
    if has_prefix(trim_start(l), "Mode:"@) || contains_seq(l, "current"@) {
        first_some(words_seq(l).map_values(|t: Seq<char>| wlr_token(t)), 0)
    } else {
        None
    }
}

/// The mode `wlr-randr` output gives.
pub open spec fn wlr_mode(out: Seq<char>) -> Option<Seq<char>> {
    first_some(lines_seq(out).map_values(|l: Seq<char>| wlr_line(l)), 0)
}

fn starts_with_digit(s: &str) -> (b: bool)
    ensures
        b == (s@.len() > 0 && is_digit(s@[0])),
{
    let v = crate::text::to_chars(s);
    v.len() > 0 && '0' <= v[0] && v[0] <= '9'
}

fn xrandr_tok(tok: &str) -> (r: Option<String>)
    ensures
        opt_str(r) == xrandr_token(tok@),
{
    if has_char(tok, 'x') && starts_with_digit(tok) {
        let pieces = split_char(tok, '+');
        assert(split_seq(tok@, '+').len() >= 1);
        assert(views(pieces@).len() == pieces@.len());
        assert(views(pieces@)[0] == pieces@[0]@);
        let r = pieces[0].clone();
        if has_char(r.as_str(), 'x') {
            return Some(r);
        }
    }
    None
}

fn xrandr_line_mode(line: &str) -> (r: Option<String>)
    ensures
        opt_str(r) == xrandr_line(line@),
{
    if !contains(line, " connected") {
        return None;
    }
    let ws = words(line);
    let ghost m = words_seq(line@).map_values(|t: Seq<char>| xrandr_token(t));
    assert(xrandr_line(line@) == first_some(m, 0));
    let mut i: usize = 0;
    while i < ws.len()
        invariant
            i <= ws.len(),
            views(ws@) == words_seq(line@),
            m == words_seq(line@).map_values(|t: Seq<char>| xrandr_token(t)),
            xrandr_line(line@) == first_some(m, 0),
            first_some(m, 0) == first_some(m, i as int),
        decreases ws.len() - i,
    {
        assert(m[i as int] == xrandr_token(ws@[i as int]@));
        match xrandr_tok(ws[i].as_str()) {
            Some(t) => {
                return Some(t);
            },
            None => {},
        }
        i = i + 1;
    }
    None
}

fn wlr_line_mode(line: &str) -> (r: Option<String>)
    ensures
        opt_str(r) == wlr_line(line@),
{
    let ts = trim_start_string(line);
    if !(starts_with(ts.as_str(), "Mode:") || contains(line, "current")) {
        return None;
    }
    let ws = words(line);
    let ghost m = words_seq(line@).map_values(|t: Seq<char>| wlr_token(t));
    assert(wlr_line(line@) == first_some(m, 0));
    let mut i: usize = 0;
    while i < ws.len()
        invariant
            i <= ws.len(),
            views(ws@) == words_seq(line@),
            m == words_seq(line@).map_values(|t: Seq<char>| wlr_token(t)),
            wlr_line(line@) == first_some(m, 0),
            first_some(m, 0) == first_some(m, i as int),
        decreases ws.len() - i,
    {
        assert(m[i as int] == wlr_token(ws@[i as int]@));
        if has_char(ws[i].as_str(), 'x') && starts_with_digit(ws[i].as_str()) {
            return Some(ws[i].clone());
        }
        i = i + 1;
    }
    None
}

fn mode_of(content: &str) -> (r: Option<String>)
    ensures
        opt_str(r) == drm_mode(content@),
{
    let ls = lines(content);
    if ls.len() > 0 {
        assert(views(ls@)[0] == ls@[0]@);
        let m = trim_str(ls[0].as_str());
        if !m.as_str().is_empty() && has_char(m.as_str(), 'x') {
            return Some(m);
        }
    }
    None
}

fn listed(found: &Vec<String>, m: &str) -> (b: bool)
    ensures
        b == views(found@).contains(m@),
{
    let mut i: usize = 0;
    while i < found.len()
        invariant
            i <= found.len(),
            forall|k: int| 0 <= k < i ==> views(found@)[k] != m@,
        decreases found.len() - i,
    {
        if str_eq(found[i].as_str(), m) {
            assert(views(found@)[i as int] == m@);
            return true;
        }
        i = i + 1;
    }
    false
}

/// Where the resolution is asked for, in this order.
#[derive(Debug, Clone, Copy, PartialEq, Eq, Structural)]
pub enum ResolutionSource {
    /// `xrandr --query` (X11).
    Xrandr,
    /// The `modes` files of the connectors under `/sys/class/drm`.
    Drm,
    /// `wlr-randr` (Wayland).
    Wlr,
}

/// What came back from a source: a command's output (`None` when the
/// command could not be run), or the DRM connectors' `modes` contents
/// (`None` when the directory could not be listed).
pub enum ResolutionReading {
    Xrandr(Option<String>),
    Drm(Option<Vec<Option<String>>>),
    Wlr(Option<String>),
}

/// What to do next: ask another source, or show this (nothing for `None`).
pub enum ResolutionAction {
    Ask(ResolutionSource),
    Done(Option<String>),
}

/// The DRM modes joined for showing, when there are any.
pub open spec fn drm_text(cs: Seq<Option<Seq<char>>>) -> Option<Seq<char>> {
    if drm_modes(cs).len() > 0 {
        Some(join_seq(drm_modes(cs), "  |  "@))
    } else {
        None
    }
}

impl ResolutionModule {
    /// The module's title.
    pub fn name(&self) -> (r: &'static str)
        ensures
            r == kind_name(ModuleKind::Resolution),
    {
        "Resolution"
    }

    /// The mode in `xrandr --query` output.
    pub fn from_xrandr(&self, out: &str) -> (r: Option<String>)
        ensures
            opt_str(r) == xrandr_mode(out@),
    {
        let ls = lines(out);
        let ghost m = lines_seq(out@).map_values(|l: Seq<char>| xrandr_line(l));
        let mut i: usize = 0;
        while i < ls.len()
            invariant
                i <= ls.len(),
                views(ls@) == lines_seq(out@),
                m == lines_seq(out@).map_values(|l: Seq<char>| xrandr_line(l)),
                first_some(m, 0) == first_some(m, i as int),
            decreases ls.len() - i,
        {
            assert(m[i as int] == xrandr_line(ls@[i as int]@));
            match xrandr_line_mode(ls[i].as_str()) {
                Some(t) => {
                    return Some(t);
                },
                None => {},
            }
            i = i + 1;
        }
        None
    }

    /// The connectors' distinct first modes, separated by `"  |  "`, from
    /// the contents of their `modes` files.
    pub fn from_drm(&self, modes: &Vec<Option<String>>) -> (r: Option<String>)
        ensures
            match r {
                Some(t) => drm_modes(modes@.map_values(|o: Option<String>| opt_str(o))).len() > 0
                    && t@ == join_seq(
                    drm_modes(modes@.map_values(|o: Option<String>| opt_str(o))),
                    "  |  "@,
                ),
                None => drm_modes(modes@.map_values(|o: Option<String>| opt_str(o))).len() == 0,
            },
    {
        let ghost cs = modes@.map_values(|o: Option<String>| opt_str(o));
        let mut found: Vec<String> = Vec::new();
        let mut i: usize = 0;
        while i < modes.len()
            invariant
                i <= modes.len(),
                cs == modes@.map_values(|o: Option<String>| opt_str(o)),
                views(found@) == drm_modes(cs.take(i as int)),
            decreases modes.len() - i,
        {
            assert(cs.take(i + 1).drop_last() =~= cs.take(i as int));
            assert(cs.take(i + 1).last() == opt_str(modes@[i as int]));
            match &modes[i] {
                Some(c) => match mode_of(c.as_str()) {
                    Some(m) => if !listed(&found, m.as_str()) {
                        proof {
                            lemma_views_push(found@, m);
                        }
                        found.push(m);
                    },
                    None => {},
                },
                None => {},
            }
            i = i + 1;
        }
        assert(cs.take(modes.len() as int) =~= cs);
        if found.len() == 0 {
            None
        } else {
            Some(join(&found, "  |  "))
        }
    }

    /// The mode in `wlr-randr` output.
    pub fn from_wlr(&self, out: &str) -> (r: Option<String>)
        ensures
            opt_str(r) == wlr_mode(out@),
    {
        let ls = lines(out);
        let ghost m = lines_seq(out@).map_values(|l: Seq<char>| wlr_line(l));
        let mut i: usize = 0;
        while i < ls.len()
            invariant
                i <= ls.len(),
                views(ls@) == lines_seq(out@),
                m == lines_seq(out@).map_values(|l: Seq<char>| wlr_line(l)),
                first_some(m, 0) == first_some(m, i as int),
            decreases ls.len() - i,
        {
            assert(m[i as int] == wlr_line(ls@[i as int]@));
            match wlr_line_mode(ls[i].as_str()) {
                Some(t) => {
                    return Some(t);
                },
                None => {},
            }
            i = i + 1;
        }
        None
    }
}

impl ResolutionModule {
    /// The source to ask first.
    pub fn first_source(&self) -> (r: ResolutionSource)
        ensures
            r == ResolutionSource::Xrandr,
    {
        ResolutionSource::Xrandr
    }

    /// Decides on what a source gave: a mode found there is shown; else
    /// the next source is asked (`xrandr`, then DRM, then `wlr-randr`);
    /// after `wlr-randr` ran, what it gives is shown, and when it could not
    /// be run nothing is shown.
    pub fn resolution_step(&self, reading: &ResolutionReading) -> (r: ResolutionAction)
        ensures
            match reading {
                ResolutionReading::Xrandr(o) => match (match o {
                    Some(s) => xrandr_mode(s@),
                    None => None,
                }) {
                    Some(v) => r matches ResolutionAction::Done(Some(t)) && t@ == v,
                    None => r matches ResolutionAction::Ask(ResolutionSource::Drm),
                },
                ResolutionReading::Drm(d) => match (match d {
                    Some(ms) => drm_text(ms@.map_values(|o: Option<String>| opt_str(o))),
                    None => None,
                }) {
                    Some(v) => r matches ResolutionAction::Done(Some(t)) && t@ == v,
                    None => r matches ResolutionAction::Ask(ResolutionSource::Wlr),
                },
                ResolutionReading::Wlr(o) => match o {
                    Some(s) => r matches ResolutionAction::Done(x) && opt_str(x) == wlr_mode(s@),
                    None => r matches ResolutionAction::Done(None),
                },
            },
    {
        match reading {
            ResolutionReading::Xrandr(o) => {
                if let Some(s) = o {
                    if let Some(v) = self.from_xrandr(s.as_str()) {
                        return ResolutionAction::Done(Some(v));
                    }
                }
                ResolutionAction::Ask(ResolutionSource::Drm)
            },
            ResolutionReading::Drm(d) => {
                if let Some(ms) = d {
                    if let Some(v) = self.from_drm(ms) {
                        return ResolutionAction::Done(Some(v));
                    }
                }
                ResolutionAction::Ask(ResolutionSource::Wlr)
            },
            ResolutionReading::Wlr(o) => match o {
                Some(s) => ResolutionAction::Done(self.from_wlr(s.as_str())),
                None => ResolutionAction::Done(None),
            },
        }
    }
}

} // verus!
