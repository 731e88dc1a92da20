//! Terminal colours: the colour names the configuration accepts, case
//! mapping, and painting text through the `colored` crate.

use colored::Colorize;
use vstd::prelude::*;
use crate::ascii::{esc, reset_seq, vis_state, visible_chars};
use crate::text::{contains_seq, push_str, str_eq};

verus! {

/// The sixteen terminal colours a configuration can name.
#[derive(Debug, Clone, Copy, PartialEq, Eq, Structural)]
pub enum ColorName {
    Black,
    Red,
    Green,
    Yellow,
    Blue,
    Magenta,
    Cyan,
    White,
    BrightBlack,
    BrightRed,
    BrightGreen,
    BrightYellow,
    BrightBlue,
    BrightMagenta,
    BrightCyan,
    BrightWhite,
}

/// The colour a lower-case configuration name stands for; unknown names
/// give white.
pub open spec fn color_of_lower(s: Seq<char>) -> ColorName {
    if s == "black"@ {
        ColorName::Black
    } else if s == "red"@ {
        ColorName::Red
    } else if s == "green"@ {
        ColorName::Green
    } else if s == "yellow"@ {
        ColorName::Yellow
    } else if s == "blue"@ {
        ColorName::Blue
    } else if s == "magenta"@ {
        ColorName::Magenta
    } else if s == "cyan"@ {
        ColorName::Cyan
    } else if s == "white"@ {
        ColorName::White
    } else if s == "bright_black"@ {
        ColorName::BrightBlack
    } else if s == "bright_red"@ {
        ColorName::BrightRed
    } else if s == "bright_green"@ {
        ColorName::BrightGreen
    } else if s == "bright_yellow"@ {
        ColorName::BrightYellow
    } else if s == "bright_blue"@ {
        ColorName::BrightBlue
    } else if s == "bright_magenta"@ {
        ColorName::BrightMagenta
    } else if s == "bright_cyan"@ {
        ColorName::BrightCyan
    } else if s == "bright_white"@ {
        ColorName::BrightWhite
    } else {
        ColorName::White
    }
}

/// What `str::to_lowercase` returns for `s` (Unicode lower-case mapping).
pub uninterp spec fn lowercase(s: Seq<char>) -> Seq<char>;

/// What `str::to_uppercase` returns for `s` (Unicode upper-case mapping).
pub uninterp spec fn uppercase(s: Seq<char>) -> Seq<char>;

/// ASCII lower-case of one character.
pub open spec fn ascii_lower_char(c: char) -> char {
    if 'A' <= c <= 'Z' {
        ((c as u32) + 32) as char
    } else {
        c
    }
}

/// ASCII upper-case of one character.
pub open spec fn ascii_upper_char(c: char) -> char {
    if 'a' <= c <= 'z' {
        ((c as u32) - 32) as char
    } else {
        c
    }
}

/// All characters are ASCII.
pub open spec fn all_ascii(s: Seq<char>) -> bool {
    forall|i: int| 0 <= i < s.len() ==> ((#[trigger] s[i]) as u32) < 0x80
}

/// `str::to_lowercase`. The Unicode case tables are not restated; what is
/// stated is that the result depends on the text alone and that ASCII text
/// maps letter by letter to ASCII lower case.
#[verifier::external_body]
pub(crate) fn to_lowercase(s: &str) -> (r: String)
    ensures
        r@ == lowercase(s@),
        all_ascii(s@) ==> r@ == s@.map_values(|c: char| ascii_lower_char(c)),
{
    s.to_lowercase()
}

/// `str::to_uppercase`. The Unicode case tables are not restated; what is
/// stated is that the result depends on the text alone and that ASCII text
/// maps letter by letter to ASCII upper case.
#[verifier::external_body]
pub(crate) fn to_uppercase(s: &str) -> (r: String)
    ensures
        r@ == uppercase(s@),
        all_ascii(s@) ==> r@ == s@.map_values(|c: char| ascii_upper_char(c)),
{
    s.to_uppercase()
}

/// The colour named by already lower-cased text.
pub fn color_from_lower(s: &str) -> (c: ColorName)
    ensures
        c == color_of_lower(s@),
{
    if str_eq(s, "black") {
        ColorName::Black
    } else if str_eq(s, "red") {
        ColorName::Red
    } else if str_eq(s, "green") {
        ColorName::Green
    } else if str_eq(s, "yellow") {
        ColorName::Yellow
    } else if str_eq(s, "blue") {
        ColorName::Blue
    } else if str_eq(s, "magenta") {
        ColorName::Magenta
    } else if str_eq(s, "cyan") {
        ColorName::Cyan
    } else if str_eq(s, "white") {
        ColorName::White
    } else if str_eq(s, "bright_black") {
        ColorName::BrightBlack
    } else if str_eq(s, "bright_red") {
        ColorName::BrightRed
    } else if str_eq(s, "bright_green") {
        ColorName::BrightGreen
    } else if str_eq(s, "bright_yellow") {
        ColorName::BrightYellow
    } else if str_eq(s, "bright_blue") {
        ColorName::BrightBlue
    } else if str_eq(s, "bright_magenta") {
        ColorName::BrightMagenta
    } else if str_eq(s, "bright_cyan") {
        ColorName::BrightCyan
    } else if str_eq(s, "bright_white") {
        ColorName::BrightWhite
    } else {
        ColorName::White
    }
}

/// The colour a configuration names, ignoring case; unknown names give
/// white.
pub fn parse_color(name: &str) -> (c: ColorName)
    ensures
        c == color_of_lower(lowercase(name@)),
{
    let lower = to_lowercase(name);
    color_from_lower(lower.as_str())
}

// ── Painting ────────────────────────────────────────────────────────────────

/// The SGR foreground code of a colour.
pub open spec fn fg_code(c: ColorName) -> Seq<char> {
    match c {
        ColorName::Black => "30"@,
        ColorName::Red => "31"@,
        ColorName::Green => "32"@,
        ColorName::Yellow => "33"@,
        ColorName::Blue => "34"@,
        ColorName::Magenta => "35"@,
        ColorName::Cyan => "36"@,
        ColorName::White => "37"@,
        ColorName::BrightBlack => "90"@,
        ColorName::BrightRed => "91"@,
        ColorName::BrightGreen => "92"@,
        ColorName::BrightYellow => "93"@,
        ColorName::BrightBlue => "94"@,
        ColorName::BrightMagenta => "95"@,
        ColorName::BrightCyan => "96"@,
        ColorName::BrightWhite => "97"@,
    }
}

/// The SGR background code of a colour.
pub open spec fn bg_code(c: ColorName) -> Seq<char> {
    match c {
        ColorName::Black => "40"@,
        ColorName::Red => "41"@,
        ColorName::Green => "42"@,
        ColorName::Yellow => "43"@,
        ColorName::Blue => "44"@,
        ColorName::Magenta => "45"@,
        ColorName::Cyan => "46"@,
        ColorName::White => "47"@,
        ColorName::BrightBlack => "100"@,
        ColorName::BrightRed => "101"@,
        ColorName::BrightGreen => "102"@,
        ColorName::BrightYellow => "103"@,
        ColorName::BrightBlue => "104"@,
        ColorName::BrightMagenta => "105"@,
        ColorName::BrightCyan => "106"@,
        ColorName::BrightWhite => "107"@,
    }
}

/// The opening SGR sequence `ESC [ codes m`.
pub open spec fn sgr(codes: Seq<char>) -> Seq<char> {
    seq![esc(), '['] + codes + seq!['m']
}

/// `t` with `open` written again after each reset sequence in it, found
/// from left to right (what `colored` does to a text before wrapping it, so
/// that the colour goes on after a reset the text itself holds).
pub open spec fn reopen(t: Seq<char>, open: Seq<char>) -> Seq<char>
    decreases t.len(),
{
    if t.len() == 0 {
        Seq::empty()
    } else if t.len() >= 4 && t.take(4) == reset_seq() {
        reset_seq() + open + reopen(t.skip(4), open)
    } else {
        seq![t[0]] + reopen(t.skip(1), open)
    }
}

/// A text with no reset sequence of its own is not changed by `reopen`, so
/// painting it on wraps it as it is.
pub proof fn lemma_reopen_without_reset(t: Seq<char>, open: Seq<char>)
    requires
        !contains_seq(t, reset_seq()),
    ensures
        reopen(t, open) == t,
    decreases t.len(),
{
    if t.len() > 0 {
        if t.len() >= 4 && t.take(4) == reset_seq() {
            assert(t.subrange(0, 4) =~= t.take(4));
            assert(crate::text::occurs_at(t, reset_seq(), 0));
        }
        let rest = t.skip(1);
        assert forall|i: int| !crate::text::occurs_at(rest, reset_seq(), i) by {
            if crate::text::occurs_at(rest, reset_seq(), i) {
                assert(t.subrange(i + 1, i + 5) =~= rest.subrange(i, i + 4));
                assert(crate::text::occurs_at(t, reset_seq(), i + 1));
            }
        }
        lemma_reopen_without_reset(rest, open);
        assert(seq![t[0]] + rest =~= t);
    }
}

/// What painting text with opening sequence `open` gives: `colored` leaves
/// the text as it is when colouring is off (no terminal, `NO_COLOR`,
/// `CLICOLOR=0`, ...), and otherwise writes `open`, the text with `open`
/// again after each reset it holds, and a reset.
pub open spec fn painted(text: Seq<char>, open: Seq<char>, r: Seq<char>) -> bool {
    r == text || r == open + reopen(text, open) + reset_seq()
}

/// The name `colored` parses for a colour.
pub fn colored_name(c: ColorName) -> (r: &'static str)
    ensures
        r@ == colored_name_spec(c),
{
    match c {
        ColorName::Black => "black",
        ColorName::Red => "red",
        ColorName::Green => "green",
        ColorName::Yellow => "yellow",
        ColorName::Blue => "blue",
        ColorName::Magenta => "magenta",
        ColorName::Cyan => "cyan",
        ColorName::White => "white",
        ColorName::BrightBlack => "bright black",
        ColorName::BrightRed => "bright red",
        ColorName::BrightGreen => "bright green",
        ColorName::BrightYellow => "bright yellow",
        ColorName::BrightBlue => "bright blue",
        ColorName::BrightMagenta => "bright magenta",
        ColorName::BrightCyan => "bright cyan",
        ColorName::BrightWhite => "bright white",
    }
}

/// The name `colored`'s `FromStr` reads as colour `c`.
pub open spec fn colored_name_spec(c: ColorName) -> Seq<char> {
    match c {
        ColorName::Black => "black"@,
        ColorName::Red => "red"@,
        ColorName::Green => "green"@,
        ColorName::Yellow => "yellow"@,
        ColorName::Blue => "blue"@,
        ColorName::Magenta => "magenta"@,
        ColorName::Cyan => "cyan"@,
        ColorName::White => "white"@,
        ColorName::BrightBlack => "bright black"@,
        ColorName::BrightRed => "bright red"@,
        ColorName::BrightGreen => "bright green"@,
        ColorName::BrightYellow => "bright yellow"@,
        ColorName::BrightBlue => "bright blue"@,
        ColorName::BrightMagenta => "bright magenta"@,
        ColorName::BrightCyan => "bright cyan"@,
        ColorName::BrightWhite => "bright white"@,
    }
}

/// `text.color(c).to_string()` from `colored`: the text, or, when colouring
/// is on, the text between `ESC[<fg>m` and a reset, with `ESC[<fg>m` written
/// again after each reset the text holds (`escape_inner_reset_sequences`).
/// Whether colouring is on depends on the environment and the terminal, so
/// either is possible.
#[verifier::external_body]
pub(crate) fn paint(text: &str, c: ColorName) -> (r: String)
    ensures
        painted(text@, sgr(fg_code(c)), r@),
{
    text.color(colored_name(c)).to_string()
}

/// `text.color(c).bold().to_string()` from `colored`: the text, or the
/// text between `ESC[1;<fg>m` and a reset when colouring is on, the opening
/// written again after each reset the text holds.
#[verifier::external_body]
pub(crate) fn paint_bold(text: &str, c: ColorName) -> (r: String)
    ensures
        painted(text@, sgr(seq!['1', ';'] + fg_code(c)), r@),
{
    text.color(colored_name(c)).bold().to_string()
}

/// `text.color(c).dimmed().to_string()` from `colored`: the text, or the
/// text between `ESC[2;<fg>m` and a reset when colouring is on, the opening
/// written again after each reset the text holds.
#[verifier::external_body]
pub(crate) fn paint_dimmed(text: &str, c: ColorName) -> (r: String)
    ensures
        painted(text@, sgr(seq!['2', ';'] + fg_code(c)), r@),
{
    text.color(colored_name(c)).dimmed().to_string()
}

/// `text.on_color(c).to_string()` from `colored`: the text, or the text
/// between `ESC[<bg>m` and a reset when colouring is on, the opening
/// written again after each reset the text holds.
#[verifier::external_body]
pub(crate) fn paint_background(text: &str, c: ColorName) -> (r: String)
    ensures
        painted(text@, sgr(bg_code(c)), r@),
{
    text.on_color(colored_name(c)).to_string()
}

/// `text.dimmed().to_string()` from `colored`: the text, or the text
/// between `ESC[2m` and a reset when colouring is on, the opening written
/// again after each reset the text holds.
#[verifier::external_body]
pub(crate) fn dim(text: &str) -> (r: String)
    ensures
        painted(text@, sgr(seq!['2']), r@),
{
    text.dimmed().to_string()
}

// ── Styled segments ─────────────────────────────────────────────────────────

/// How a piece of text is painted.
#[derive(Debug, Clone, Copy, PartialEq, Eq, Structural)]
pub enum Paint {
    /// Printed as it is.
    Plain,
    /// Foreground colour.
    Fg(ColorName),
    /// Foreground colour, bold.
    FgBold(ColorName),
    /// Foreground colour, dimmed.
    FgDimmed(ColorName),
    /// Background colour.
    Bg(ColorName),
    /// Dimmed, default colour.
    Dimmed,
}

/// A piece of text with its paint.
#[derive(Debug, Clone)]
pub struct Segment {
    pub text: String,
    pub paint: Paint,
}

/// The opening sequence `colored` writes for a paint.
pub open spec fn paint_open(p: Paint) -> Seq<char> {
    match p {
        Paint::Plain => Seq::empty(),
        Paint::Fg(c) => sgr(fg_code(c)),
        Paint::FgBold(c) => sgr(seq!['1', ';'] + fg_code(c)),
        Paint::FgDimmed(c) => sgr(seq!['2', ';'] + fg_code(c)),
        Paint::Bg(c) => sgr(bg_code(c)),
        Paint::Dimmed => sgr(seq!['2']),
    }
}

/// `out` is what painting `text` with `p` may print.
pub open spec fn paints_as(text: Seq<char>, p: Paint, out: Seq<char>) -> bool {
    match p {
        Paint::Plain => out == text,
        _ => painted(text, paint_open(p), out),
    }
}

/// A line of segments viewed as (text, paint) pairs.
pub open spec fn seg_views(segs: Seq<Segment>) -> Seq<(Seq<char>, Paint)> {
    segs.map_values(|s: Segment| (s.text@, s.paint))
}

/// The concatenation of a sequence of texts.
pub open spec fn concat(pieces: Seq<Seq<char>>) -> Seq<char>
    decreases pieces.len(),
{
    if pieces.len() == 0 {
        Seq::empty()
    } else {
        concat(pieces.drop_last()) + pieces.last()
    }
}

/// `out` is one way a line of segments may print: each segment painted
/// on its own, one after the other.
pub open spec fn line_renders_as(segs: Seq<(Seq<char>, Paint)>, out: Seq<char>) -> bool {
    exists|pieces: Seq<Seq<char>>|
        #![trigger concat(pieces)]
        pieces.len() == segs.len() && (forall|i: int|
            0 <= i < segs.len() ==> paints_as(segs[i].0, segs[i].1, #[trigger] pieces[i]))
            && out == concat(pieces)
}

/// The text of a line of segments with colouring off.
pub open spec fn plain_text(segs: Seq<(Seq<char>, Paint)>) -> Seq<char>
    decreases segs.len(),
{
    if segs.len() == 0 {
        Seq::empty()
    } else {
        plain_text(segs.drop_last()) + segs.last().0
    }
}

/// `lines` is one way the segment lines `segs` may print.
pub open spec fn lines_render_as(segs: Seq<Seq<(Seq<char>, Paint)>>, lines: Seq<Seq<char>>) -> bool {
    lines.len() == segs.len() && forall|i: int|
        0 <= i < segs.len() ==> line_renders_as(#[trigger] segs[i], lines[i])
}

/// The segment lines viewed as (text, paint) pairs.
pub open spec fn seg_lines_views(lines: Seq<Vec<Segment>>) -> Seq<Seq<(Seq<char>, Paint)>> {
    lines.map_values(|l: Vec<Segment>| seg_views(l@))
}

/// A plain segment.
pub fn plain(text: String) -> (s: Segment)
    ensures
        s.text@ == text@,
        s.paint == Paint::Plain,
{
    Segment { text, paint: Paint::Plain }
}

/// A painted segment.
pub fn seg(text: String, paint: Paint) -> (s: Segment)
    ensures
        s.text@ == text@,
        s.paint == paint,
{
    Segment { text, paint }
}

/// Prints one segment with its paint.
pub fn render_segment(s: &Segment) -> (r: String)
    ensures
        paints_as(s.text@, s.paint, r@),
{
    match s.paint {
        Paint::Plain => s.text.clone(),
        Paint::Fg(c) => paint(s.text.as_str(), c),
        Paint::FgBold(c) => paint_bold(s.text.as_str(), c),
        Paint::FgDimmed(c) => paint_dimmed(s.text.as_str(), c),
        Paint::Bg(c) => paint_background(s.text.as_str(), c),
        Paint::Dimmed => dim(s.text.as_str()),
    }
}

/// Prints a line of segments.
pub fn render_line(segs: &Vec<Segment>) -> (r: String)
    ensures
        line_renders_as(seg_views(segs@), r@),
{
    let mut r = String::new();
    let ghost mut pieces: Seq<Seq<char>> = Seq::empty();
    let mut i: usize = 0;
    while i < segs.len()
        invariant
            i <= segs.len(),
            pieces.len() == i,
            forall|j: int|
                0 <= j < i ==> paints_as(seg_views(segs@)[j].0, seg_views(segs@)[j].1, #[trigger] pieces[j]),
            r@ == concat(pieces),
        decreases segs.len() - i,
    {
        let piece = render_segment(&segs[i]);
        push_str(&mut r, piece.as_str());
        proof {
            let old_pieces = pieces;
            pieces = pieces.push(piece@);
            assert(pieces.drop_last() =~= old_pieces);
            assert forall|j: int| 0 <= j < i + 1 implies paints_as(
                seg_views(segs@)[j].0,
                seg_views(segs@)[j].1,
                #[trigger] pieces[j],
            ) by {
                if j < i {
                    assert(pieces[j] == old_pieces[j]);
                }
            }
        }
        i = i + 1;
    }
    assert(pieces.len() == seg_views(segs@).len());
    r
}

/// Prints lines of segments.
pub fn render_lines(lines: &Vec<Vec<Segment>>) -> (r: Vec<String>)
    ensures
        lines_render_as(seg_lines_views(lines@), crate::text::views(r@)),
{
    let mut r: Vec<String> = Vec::new();
    let mut i: usize = 0;
    while i < lines.len()
        invariant
            i <= lines.len(),
            r@.len() == i,
            forall|j: int|
                0 <= j < i ==> line_renders_as(#[trigger] seg_lines_views(lines@)[j], r@[j]@),
        decreases lines.len() - i,
    {
        let l = render_line(&lines[i]);
        r.push(l);
        i = i + 1;
    }
    r
}

// ── Painting keeps what is visible ──────────────────────────────────────────

/// One step of the visible-character scan (as in `vis_state`).
pub open spec fn vis_step(st: (Seq<char>, bool), c: char) -> (Seq<char>, bool) {
    let (v, e) = st;
    if c == esc() {
        (v, true)
    } else if e && c == 'm' {
        (v, false)
    } else if !e {
        (v.push(c), false)
    } else {
        (v, true)
    }
}

/// The visible-character scan of `s` from state `st`.
pub open spec fn vis_run(st: (Seq<char>, bool), s: Seq<char>) -> (Seq<char>, bool)
    decreases s.len(),
{
    if s.len() == 0 {
        st
    } else {
        vis_step(vis_run(st, s.drop_last()), s.last())
    }
}

proof fn lemma_vis_run_start(s: Seq<char>)
    ensures
        vis_state(s) == vis_run((Seq::<char>::empty(), false), s),
    decreases s.len(),
{
    if s.len() > 0 {
        lemma_vis_run_start(s.drop_last());
    }
}

proof fn lemma_vis_run_concat(st: (Seq<char>, bool), a: Seq<char>, b: Seq<char>)
    ensures
        vis_run(st, a + b) == vis_run(vis_run(st, a), b),
    decreases b.len(),
{
    if b.len() == 0 {
        assert(a + b =~= a);
    } else {
        lemma_vis_run_concat(st, a, b.drop_last());
        assert((a + b).drop_last() =~= a + b.drop_last());
        assert((a + b).last() == b.last());
    }
}

proof fn lemma_vis_run_push(st: (Seq<char>, bool), s: Seq<char>, c: char)
    ensures
        vis_run(st, s.push(c)) == vis_step(vis_run(st, s), c),
{
    assert(s.push(c).drop_last() =~= s);
    assert(s.push(c).last() == c);
}

/// A reset adds nothing visible and leaves the scan outside an escape
/// sequence, whatever state it starts from.
proof fn lemma_vis_run_reset(st: (Seq<char>, bool))
    ensures
        vis_run(st, reset_seq()) == (st.0, false),
{
    let e: Seq<char> = Seq::empty();
    lemma_vis_run_push(st, e, esc());
    lemma_vis_run_push(st, e.push(esc()), '[');
    lemma_vis_run_push(st, e.push(esc()).push('['), '0');
    lemma_vis_run_push(st, e.push(esc()).push('[').push('0'), 'm');
    assert(e.push(esc()).push('[').push('0').push('m') =~= reset_seq());
}

proof fn lemma_vis_run_inside(v: Seq<char>, body: Seq<char>)
    requires
        forall|i: int| 0 <= i < body.len() ==> #[trigger] body[i] != esc() && body[i] != 'm',
    ensures
        vis_run((v, true), body) == (v, true),
    decreases body.len(),
{
    if body.len() > 0 {
        lemma_vis_run_inside(v, body.drop_last());
        lemma_vis_run_push((v, true), body.drop_last(), body.last());
        assert(body.drop_last().push(body.last()) =~= body);
        assert(body.last() == body[body.len() - 1]);
    }
}

/// An opening sequence adds nothing visible and ends outside an escape
/// sequence.
proof fn lemma_vis_run_sgr(v: Seq<char>, codes: Seq<char>)
    requires
        forall|i: int| 0 <= i < codes.len() ==> ('0' <= #[trigger] codes[i] <= '9' || codes[i] == ';'),
    ensures
        vis_run((v, false), sgr(codes)) == (v, false),
{
    let body = seq!['['] + codes;
    assert forall|i: int| 0 <= i < body.len() implies #[trigger] body[i] != esc() && body[i] != 'm' by {
        if i > 0 {
            assert(body[i] == codes[i - 1]);
        }
    }
    assert(sgr(codes) =~= seq![esc()] + body + seq!['m']);
    lemma_vis_run_concat((v, false), seq![esc()] + body, seq!['m']);
    lemma_vis_run_concat((v, false), seq![esc()], body);
    lemma_vis_run_push((v, false), Seq::<char>::empty(), esc());
    assert(Seq::<char>::empty().push(esc()) =~= seq![esc()]);
    lemma_vis_run_inside(v, body);
    lemma_vis_run_push(vis_run((v, false), seq![esc()] + body), Seq::<char>::empty(), 'm');
    assert(Seq::<char>::empty().push('m') =~= seq!['m']);
}

/// Writing an invisible opening sequence again after each reset changes
/// nothing visible, from any starting state.
proof fn lemma_vis_run_reopen(st: (Seq<char>, bool), t: Seq<char>, codes: Seq<char>)
    requires
        forall|i: int| 0 <= i < codes.len() ==> ('0' <= #[trigger] codes[i] <= '9' || codes[i] == ';'),
    ensures
        vis_run(st, reopen(t, sgr(codes))) == vis_run(st, t),
    decreases t.len(),
{
    let open = sgr(codes);
    if t.len() == 0 {
    } else if t.len() >= 4 && t.take(4) == reset_seq() {
        let rest = t.skip(4);
        assert(t =~= reset_seq() + rest);
        lemma_vis_run_concat(st, reset_seq(), rest);
        lemma_vis_run_reset(st);
        lemma_vis_run_concat(st, reset_seq() + open, reopen(rest, open));
        lemma_vis_run_concat(st, reset_seq(), open);
        lemma_vis_run_sgr(st.0, codes);
        lemma_vis_run_reopen((st.0, false), rest, codes);
    } else {
        let rest = t.skip(1);
        assert(t =~= seq![t[0]] + rest);
        lemma_vis_run_concat(st, seq![t[0]], rest);
        lemma_vis_run_concat(st, seq![t[0]], reopen(rest, open));
        lemma_vis_run_reopen(vis_run(st, seq![t[0]]), rest, codes);
    }
}

/// Painting text never changes what shows on a terminal: the visible
/// characters of any output `colored` may give for `text` are those of
/// `text`, also when the text holds reset sequences of its own.
pub proof fn law_paint_keeps_visible(text: Seq<char>, p: Paint, out: Seq<char>)
    requires
        paints_as(text, p, out),
    ensures
        visible_chars(out) == visible_chars(text),
{
    if p != Paint::Plain && out != text {
        let open = paint_open(p);
        reveal_strlit("30");
        reveal_strlit("31");
        reveal_strlit("32");
        reveal_strlit("33");
        reveal_strlit("34");
        reveal_strlit("35");
        reveal_strlit("36");
        reveal_strlit("37");
        reveal_strlit("90");
        reveal_strlit("91");
        reveal_strlit("92");
        reveal_strlit("93");
        reveal_strlit("94");
        reveal_strlit("95");
        reveal_strlit("96");
        reveal_strlit("97");
        reveal_strlit("40");
        reveal_strlit("41");
        reveal_strlit("42");
        reveal_strlit("43");
        reveal_strlit("44");
        reveal_strlit("45");
        reveal_strlit("46");
        reveal_strlit("47");
        reveal_strlit("100");
        reveal_strlit("101");
        reveal_strlit("102");
        reveal_strlit("103");
        reveal_strlit("104");
        reveal_strlit("105");
        reveal_strlit("106");
        reveal_strlit("107");
        let codes = open.subrange(2, open.len() - 1);
        assert(open =~= sgr(codes));
        assert forall|i: int| 0 <= i < codes.len() implies ('0' <= #[trigger] codes[i] <= '9' || codes[i]
            == ';') by {
            assert(codes[i] == open[i + 2]);
        }
        let init = (Seq::<char>::empty(), false);
        let body = reopen(text, open);
        assert(out == open + body + reset_seq());
        lemma_vis_run_start(out);
        lemma_vis_run_start(text);
        lemma_vis_run_concat(init, open + body, reset_seq());
        lemma_vis_run_concat(init, open, body);
        lemma_vis_run_sgr(Seq::<char>::empty(), codes);
        lemma_vis_run_reopen(init, text, codes);
        lemma_vis_run_reset(vis_run(init, open + body));
    }
}

} // verus!
