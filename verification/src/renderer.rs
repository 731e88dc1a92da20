//! Page composition: the information lines, the side-by-side and stacked
//! layouts, the mini box, the version page, page titles and JSON export.
//!
//! Pages are built as lines of painted segments with exact contracts;
//! `render_lines` then prints them through `colored`.

use vstd::prelude::*;
use crate::ascii::{ascii_width, max_visible, truncate_to_visible, truncated, visible_chars, visible_count, visible_len};
use crate::config::VaminfoConfig;
use crate::layout::{decide_layout, layout_for, LayoutMode, TerminalSize};
use crate::modules::{icon_from, module_icon};
use crate::style::{
    color_of_lower, lowercase, parse_color, render_lines, seg, seg_lines_views, lines_render_as, plain,
    ColorName, Paint, Segment,
};
use crate::text::{
    byte_len, join, join_seq, lemma_take_step, owned, pair_views, pad_right, pad_to, push_char, push_str,
    repeat_seq, repeat_str, spaces, spaces_string, split_char, split_seq, to_chars, utf8_len, views,
};

verus! {

/// A segment viewed as its text and paint.
pub type SegV = (Seq<char>, Paint);

/// The colour a configuration colour name selects.
pub open spec fn color_spec(name: Seq<char>) -> ColorName {
    color_of_lower(lowercase(name))
}

/// Lines of strings as lines of plain one-segment lines.
pub open spec fn plain_lines(ls: Seq<Seq<char>>) -> Seq<Seq<SegV>> {
    ls.map_values(|l: Seq<char>| seq![(l, Paint::Plain)])
}

proof fn lemma_seg_lines_push(ls: Seq<Vec<Segment>>, l: Vec<Segment>)
    ensures
        seg_lines_views(ls.push(l)) == seg_lines_views(ls).push(crate::style::seg_views(l@)),
{
    assert(seg_lines_views(ls.push(l)) =~= seg_lines_views(ls).push(crate::style::seg_views(l@)));
}

/// A line holding one segment.
pub(crate) fn line_of(s: Segment) -> (l: Vec<Segment>)
    ensures
        crate::style::seg_views(l@) == seq![(s.text@, s.paint)],
{
    let mut l = Vec::new();
    l.push(s);
    assert(crate::style::seg_views(l@) =~= seq![(s.text@, s.paint)]);
    l
}

/// An empty line.
pub(crate) fn empty_line() -> (l: Vec<Segment>)
    ensures
        crate::style::seg_views(l@) == Seq::<SegV>::empty(),
{
    let l: Vec<Segment> = Vec::new();
    assert(crate::style::seg_views(l@) =~= Seq::<SegV>::empty());
    l
}

/// Appends a line to a list of lines.
pub(crate) fn push_line(lines: &mut Vec<Vec<Segment>>, l: Vec<Segment>)
    ensures
        seg_lines_views(final(lines)@) == seg_lines_views(old(lines)@).push(crate::style::seg_views(l@)),
{
    proof {
        lemma_seg_lines_push(lines@, l);
    }
    lines.push(l);
}

// ── User and host ───────────────────────────────────────────────────────────

/// The first present value, or `default`.
pub open spec fn first_of(a: Option<Seq<char>>, b: Option<Seq<char>>, c: Option<Seq<char>>, default: Seq<char>) -> Seq<char> {
    match a {
        Some(x) => x,
        None => match b {
            Some(x) => x,
            None => match c {
                Some(x) => x,
                None => default,
            },
        },
    }
}

/// The view of an optional string slice.
pub open spec fn opt_view(o: Option<&str>) -> Option<Seq<char>> {
    match o {
        Some(s) => Some(s@),
        None => None,
    }
}

/// `user@host` for the title: the user from `$USER`, `$LOGNAME` or
/// `$USERNAME` (else `user`), the host name if known (else `host`).
pub fn user_host(user: Option<&str>, logname: Option<&str>, username: Option<&str>, host: Option<&str>) -> (r: String)
    ensures
        r@ == first_of(opt_view(user), opt_view(logname), opt_view(username), "user"@) + seq!['@']
            + first_of(opt_view(host), None, None, "host"@),
{
    let mut r = match user {
        Some(u) => owned(u),
        None => match logname {
            Some(u) => owned(u),
            None => match username {
                Some(u) => owned(u),
                None => owned("user"),
            },
        },
    };
    push_char(&mut r, '@');
    match host {
        Some(h) => push_str(&mut r, h),
        None => push_str(&mut r, "host"),
    }
    r
}

// ── JSON export ─────────────────────────────────────────────────────────────

/// The JSON string escape of one character.
pub open spec fn json_char(c: char) -> Seq<char> {
    if c == '\\' {
        seq!['\\', '\\']
    } else if c == '"' {
        seq!['\\', '"']
    } else if c == '\n' {
        seq!['\\', 'n']
    } else if c == '\r' {
        seq!['\\', 'r']
    } else if c == '\t' {
        seq!['\\', 't']
    } else {
        seq![c]
    }
}

/// `s` with backslash, quote, newline, carriage return and tab escaped.
pub open spec fn json_escaped(s: Seq<char>) -> Seq<char>
    decreases s.len(),
{
    if s.len() == 0 {
        Seq::empty()
    } else {
        json_escaped(s.drop_last()) + json_char(s.last())
    }
}

/// Whatever text a value holds, its JSON escape holds no raw line break,
/// carriage return or tab, so each exported member stays on one line.
pub proof fn law_json_escape_single_line(s: Seq<char>)
    ensures
        forall|i: int|
            0 <= i < json_escaped(s).len() ==> {
                let c = #[trigger] json_escaped(s)[i];
                c != '\n' && c != '\r' && c != '\t'
            },
    decreases s.len(),
{
    if s.len() > 0 {
        law_json_escape_single_line(s.drop_last());
        let a = json_escaped(s.drop_last());
        let b = json_char(s.last());
        assert(json_escaped(s) == a + b);
        assert forall|i: int| 0 <= i < (a + b).len() implies {
            let c = #[trigger] (a + b)[i];
            c != '\n' && c != '\r' && c != '\t'
        } by {
            if i < a.len() {
                assert((a + b)[i] == a[i]);
            } else {
                assert((a + b)[i] == b[i - a.len()]);
            }
        }
    }
}

/// The character a two-character JSON escape `\c` stands for.
pub open spec fn json_simple_escape(c: char) -> Option<char> {
    if c == '"' {
        Some('"')
    } else if c == '\\' {
        Some('\\')
    } else if c == '/' {
        Some('/')
    } else if c == 'b' {
        Some('\x08')
    } else if c == 'f' {
        Some('\x0c')
    } else if c == 'n' {
        Some('\n')
    } else if c == 'r' {
        Some('\r')
    } else if c == 't' {
        Some('\t')
    } else {
        None
    }
}

/// The value of a hexadecimal digit.
pub open spec fn hex_value(c: char) -> Option<int> {
    if '0' <= c <= '9' {
        Some(c as int - '0' as int)
    } else if 'a' <= c <= 'f' {
        Some(c as int - 'a' as int + 10)
    } else if 'A' <= c <= 'F' {
        Some(c as int - 'A' as int + 10)
    } else {
        None
    }
}

/// The number four hexadecimal digits spell.
pub open spec fn hex4(h: Seq<char>) -> Option<int> {
    match (hex_value(h[0]), hex_value(h[1]), hex_value(h[2]), hex_value(h[3])) {
        (Some(a), Some(b), Some(c), Some(d)) => Some(((a * 16 + b) * 16 + c) * 16 + d),
        _ => None,
    }
}

/// `c` before the decoded rest, when the rest decodes.
pub open spec fn json_prepend(c: char, rest: Option<Seq<char>>) -> Option<Seq<char>> {
    match rest {
        Some(r) => Some(seq![c] + r),
        None => None,
    }
}

/// A JSON control character, which a string may not hold unescaped.
pub open spec fn json_control(c: char) -> bool {
    (c as int) < 0x20
}

/// The text a JSON string body (what stands between the quotes) denotes,
/// or `None` when it is not a valid body: characters other than `"`, `\`
/// and control characters stand for themselves; `\"`, `\\`, `\/`, `\b`,
/// `\f`, `\n`, `\r`, `\t` and `\uXXXX` (a UTF-16 unit, surrogates only as
/// a high-low pair) are escapes.
pub open spec fn json_string_value(b: Seq<char>) -> Option<Seq<char>>
    decreases b.len(),
{
    if b.len() == 0 {
        Some(Seq::empty())
    } else if b[0] == '\\' {
        if b.len() < 2 {
            None
        } else {
            match json_simple_escape(b[1]) {
                Some(c) => json_prepend(c, json_string_value(b.skip(2))),
                None => if b[1] == 'u' && b.len() >= 6 {
                    match hex4(b.subrange(2, 6)) {
                        Some(u) => if u < 0xD800 || u > 0xDFFF {
                            json_prepend(u as char, json_string_value(b.skip(6)))
                        } else if u < 0xDC00 && b.len() >= 12 && b[6] == '\\' && b[7] == 'u' {
                            match hex4(b.subrange(8, 12)) {
                                Some(l) => if 0xDC00 <= l <= 0xDFFF {
                                    json_prepend(
                                        ((u - 0xD800) * 0x400 + (l - 0xDC00) + 0x10000) as char,
                                        json_string_value(b.skip(12)),
                                    )
                                } else {
                                    None
                                },
                                None => None,
                            }
                        } else {
                            None
                        },
                        None => None,
                    }
                } else {
                    None
                },
            }
        }
    } else if b[0] == '"' || json_control(b[0]) {
        None
    } else {
        json_prepend(b[0], json_string_value(b.skip(1)))
    }
}

proof fn lemma_json_escaped_concat(a: Seq<char>, b: Seq<char>)
    ensures
        json_escaped(a + b) == json_escaped(a) + json_escaped(b),
    decreases b.len(),
{
    if b.len() == 0 {
        assert(a + b =~= a);
        assert(json_escaped(a) + json_escaped(b) =~= json_escaped(a));
    } else {
        lemma_json_escaped_concat(a, b.drop_last());
        assert((a + b).drop_last() =~= a + b.drop_last());
        assert((a + b).last() == b.last());
        assert(json_escaped(a) + json_escaped(b) =~= json_escaped(a) + json_escaped(b.drop_last()) + json_char(
            b.last(),
        ));
    }
}

proof fn lemma_json_char_value(c: char, r: Seq<char>)
    requires
        !json_control(c) || c == '\n' || c == '\r' || c == '\t',
    ensures
        json_string_value(json_char(c) + r) == json_prepend(c, json_string_value(r)),
{
    let b = json_char(c) + r;
    if c == '\\' || c == '"' || c == '\n' || c == '\r' || c == '\t' {
        assert(b.skip(2) =~= r);
        assert(b[0] == '\\');
    } else {
        assert(b.skip(1) =~= r);
        assert(b[0] == c);
    }
}

/// Escaping gives back the text: for text with no control characters but
/// line breaks, carriage returns and tabs, the escaped text is a valid JSON
/// string body that denotes the text itself.
pub proof fn law_json_escape_round_trip(s: Seq<char>)
    requires
        forall|i: int| 0 <= i < s.len() ==> {
            let c = #[trigger] s[i];
            !json_control(c) || c == '\n' || c == '\r' || c == '\t'
        },
    ensures
        json_string_value(json_escaped(s)) == Some(s),
    decreases s.len(),
{
    if s.len() == 0 {
        assert(json_escaped(s) =~= Seq::<char>::empty());
    } else {
        let c = s[0];
        let rest = s.skip(1);
        assert(s =~= seq![c] + rest);
        assert forall|i: int| 0 <= i < rest.len() implies {
            let d = #[trigger] rest[i];
            !json_control(d) || d == '\n' || d == '\r' || d == '\t'
        } by {
            assert(rest[i] == s[i + 1]);
        }
        law_json_escape_round_trip(rest);
        lemma_json_escaped_concat(seq![c], rest);
        assert(seq![c].drop_last() =~= Seq::<char>::empty());
        assert(seq![c].last() == c);
        assert(json_escaped(Seq::<char>::empty()) =~= Seq::<char>::empty());
        assert(json_escaped(seq![c]) =~= json_char(c));
        lemma_json_char_value(c, json_escaped(rest));
        assert(seq![c] + rest =~= s);
    }
}

/// Escapes text for a JSON string literal.
pub fn json_escape(s: &str) -> (r: String)
    ensures
        r@ == json_escaped(s@),
{
    let v = to_chars(s);
    let mut r = String::new();
    let mut i: usize = 0;
    while i < v.len()
        invariant
            i <= v.len(),
            r@ == json_escaped(v@.take(i as int)),
        decreases v.len() - i,
    {
        proof {
            lemma_take_step(v@, i as int);
        }
        let c = v[i];
        if c == '\\' {
            push_char(&mut r, '\\');
            push_char(&mut r, '\\');
        } else if c == '"' {
            push_char(&mut r, '\\');
            push_char(&mut r, '"');
        } else if c == '\n' {
            push_char(&mut r, '\\');
            push_char(&mut r, 'n');
        } else if c == '\r' {
            push_char(&mut r, '\\');
            push_char(&mut r, 'r');
        } else if c == '\t' {
            push_char(&mut r, '\\');
            push_char(&mut r, 't');
        } else {
            push_char(&mut r, c);
        }
        i = i + 1;
        assert(r@ =~= json_escaped(v@.take(i as int)));
    }
    assert(v@.take(i as int) =~= s@);
    r
}

/// The JSON member line of pair `i` out of `n`.
pub open spec fn json_member(k: Seq<char>, v: Seq<char>, last: bool) -> Seq<char> {
    "  \""@ + json_escaped(k) + "\": \""@ + json_escaped(v) + "\""@ + if last {
        Seq::empty()
    } else {
        ","@
    }
}

/// The lines of the JSON export: `{`, one member per pair (all but the
/// last followed by a comma), `}`.
pub open spec fn json_lines_spec(pairs: Seq<(Seq<char>, Seq<char>)>) -> Seq<Seq<char>> {
    seq!["{"@] + Seq::new(
        pairs.len(),
        |i: int| json_member(pairs[i].0, pairs[i].1, i + 1 >= pairs.len()),
    ) + seq!["}"@]
}

/// The JSON export of name/value pairs, line by line.
pub fn render_json(pairs: &Vec<(String, String)>) -> (r: Vec<String>)
    ensures
        views(r@) == json_lines_spec(pair_views(pairs@)),
{
    let mut r: Vec<String> = Vec::new();
    r.push(owned("{"));
    let n = pairs.len();
    let mut i: usize = 0;
    while i < n
        invariant
            i <= n == pairs.len(),
            views(r@) == seq!["{"@] + Seq::new(
                i as nat,
                |j: int|
                    json_member(
                        pair_views(pairs@)[j].0,
                        pair_views(pairs@)[j].1,
                        j + 1 >= pairs.len(),
                    ),
            ),
        decreases n - i,
    {
        let mut line = owned("  \"");
        let k = json_escape(pairs[i].0.as_str());
        push_str(&mut line, k.as_str());
        push_str(&mut line, "\": \"");
        let v = json_escape(pairs[i].1.as_str());
        push_str(&mut line, v.as_str());
        push_str(&mut line, "\"");
        if i + 1 < n {
            push_str(&mut line, ",");
        }
        proof {
            crate::text::lemma_views_push(r@, line);
        }
        r.push(line);
        i = i + 1;
        assert(views(r@) =~= seq!["{"@] + Seq::new(
            i as nat,
            |j: int|
                json_member(pair_views(pairs@)[j].0, pair_views(pairs@)[j].1, j + 1 >= pairs.len()),
        ));
    }
    let close = owned("}");
    proof {
        crate::text::lemma_views_push(r@, close);
    }
    r.push(close);
    assert(views(r@) =~= json_lines_spec(pair_views(pairs@)));
    r
}

// ── Page title ──────────────────────────────────────────────────────────────

/// Width of the page-title box: the label with two spaces each side, at
/// least 44 bytes.
pub open spec fn title_width(label: Seq<char>) -> nat {
    let n = utf8_len(label) + 4;
    if n > 44 {
        n
    } else {
        44
    }
}

/// The middle row of a page-title box: the label centred (extra space on
/// the right) between `|` bars.
pub open spec fn title_middle(label: Seq<char>) -> Seq<char> {
    let inner = "  "@ + label + "  "@;
    let pad = (title_width(label) - (utf8_len(label) + 4)) as nat;
    let pl = pad / 2;
    "|"@ + spaces(pl) + inner + spaces((pad - pl) as nat) + "|"@
}

/// The top and bottom rows of a page-title box.
pub open spec fn title_rule(label: Seq<char>) -> Seq<char> {
    "+"@ + repeat_seq("="@, title_width(label)) + "+"@
}

/// The lines of a page title: a blank line, the boxed label, a blank line,
/// all in the art colour, bold.
pub open spec fn page_title_spec(ac: ColorName, label: Seq<char>) -> Seq<Seq<SegV>> {
    seq![
        Seq::empty(),
        seq![(title_rule(label), Paint::FgBold(ac))],
        seq![(title_middle(label), Paint::FgBold(ac))],
        seq![(title_rule(label), Paint::FgBold(ac))],
        Seq::empty(),
    ]
}

proof fn lemma_utf8_len_lit2(a: Seq<char>, b: Seq<char>, c: Seq<char>)
    ensures
        utf8_len(a + b + c) == utf8_len(a) + utf8_len(b) + utf8_len(c),
{
    crate::text::lemma_utf8_len_concat(a + b, c);
    crate::text::lemma_utf8_len_concat(a, b);
}

/// The boxed title shown on the help, tip and version pages.
pub fn print_page_title(cfg: &VaminfoConfig, label: &str) -> (r: Vec<Vec<Segment>>)
    ensures
        seg_lines_views(r@) == page_title_spec(color_spec(cfg.ascii_color@), label@),
{
    let c = parse_color(cfg.ascii_color.as_str());
    let mut inner = owned("  ");
    push_str(&mut inner, label);
    push_str(&mut inner, "  ");
    let n = byte_len(inner.as_str());
    proof {
        reveal_strlit("  ");
        lemma_utf8_len_lit2("  "@, label@, "  "@);
        crate::text::lemma_utf8_len_ascii("  "@);
        assert(inner@ == "  "@ + label@ + "  "@);
    }
    let width: u128 = if n > 44 {
        n
    } else {
        44
    };
    let pad = width - n;
    let pad_l = pad / 2;
    let pad_r = pad - pad_l;
    let mut top = owned("+");
    let eqs = repeat_str("=", width);
    push_str(&mut top, eqs.as_str());
    push_str(&mut top, "+");
    let mut middle = owned("|");
    let sl = spaces_string(pad_l);
    push_str(&mut middle, sl.as_str());
    push_str(&mut middle, inner.as_str());
    let sr = spaces_string(pad_r);
    push_str(&mut middle, sr.as_str());
    push_str(&mut middle, "|");
    let bottom = top.clone();
    let mut r: Vec<Vec<Segment>> = Vec::new();
    push_line(&mut r, empty_line());
    push_line(&mut r, line_of(seg(top, Paint::FgBold(c))));
    push_line(&mut r, line_of(seg(middle, Paint::FgBold(c))));
    push_line(&mut r, line_of(seg(bottom, Paint::FgBold(c))));
    push_line(&mut r, empty_line());
    assert(seg_lines_views(r@) =~= page_title_spec(color_spec(cfg.ascii_color@), label@));
    r
}

// ── Version page ────────────────────────────────────────────────────────────

/// A row of the version box: the bars in the art colour (bold) around the
/// label, padded with spaces to 52 bytes.
pub open spec fn version_row(ac: ColorName, label: Seq<char>, paint: Paint) -> Seq<SegV> {
    seq![
        ("║"@, Paint::FgBold(ac)),
        (label, paint),
        (spaces(if utf8_len(label) >= 52 { 0 } else { (52 - utf8_len(label)) as nat }), Paint::Plain),
        ("║"@, Paint::FgBold(ac)),
    ]
}

/// The config row text, cut to 51 bytes plus `~` when longer than 52.
pub open spec fn config_row_text(path: Seq<char>) -> Seq<char> {
    let s = "  Config    :  "@ + path;
    if utf8_len(s) > 52 {
        crate::text::byte_prefix(s, 51) + "~"@
    } else {
        s
    }
}

/// The lines of the version page.
pub open spec fn version_page_spec(ac: ColorName, tc: ColorName, vc: ColorName, version: Seq<char>, path: Seq<char>) -> Seq<Seq<SegV>> {
    let top = "╔"@ + repeat_seq("═"@, 52) + "╗"@;
    let sep = "╠"@ + repeat_seq("═"@, 52) + "╣"@;
    let bottom = "╚"@ + repeat_seq("═"@, 52) + "╝"@;
    let block = repeat_seq("█"@, 8);
    seq![
        Seq::empty(),
        seq![(top, Paint::FgBold(ac))],
        version_row(ac, "  V A M I N F O"@, Paint::FgBold(tc)),
        seq![(sep, Paint::FgBold(ac))],
        version_row(ac, "  Version   :  v"@ + version, Paint::Fg(vc)),
        version_row(ac, "  Platform  :  Vamora OS"@, Paint::Fg(vc)),
        version_row(ac, "  Tool      :  System Information"@, Paint::Fg(vc)),
        version_row(ac, config_row_text(path), Paint::FgDimmed(vc)),
        seq![(sep, Paint::FgBold(ac))],
        seq![
            ("║"@, Paint::FgBold(ac)),
            (block, Paint::Fg(ColorName::Red)),
            (block, Paint::Fg(ColorName::Yellow)),
            (block, Paint::Fg(ColorName::Green)),
            (block, Paint::Fg(ColorName::Cyan)),
            (block, Paint::Fg(ColorName::Blue)),
            (block, Paint::Fg(ColorName::Magenta)),
            (spaces(4), Paint::Plain),
            ("║"@, Paint::FgBold(ac)),
        ],
        seq![(bottom, Paint::FgBold(ac))],
        Seq::empty(),
    ]
}

/// The version page shows the version it is given: its version row reads
/// `"  Version   :  v"` followed by the version, so pages for different
/// versions differ.
pub proof fn law_version_page_shows_version(
    ac: ColorName,
    tc: ColorName,
    vc: ColorName,
    version: Seq<char>,
    version2: Seq<char>,
    path: Seq<char>,
)
    ensures
        version_page_spec(ac, tc, vc, version, path)[4][1].0 == "  Version   :  v"@ + version,
        version_page_spec(ac, tc, vc, version, path) == version_page_spec(ac, tc, vc, version2, path)
            ==> version == version2,
{
    let pre = "  Version   :  v"@;
    if version_page_spec(ac, tc, vc, version, path) == version_page_spec(ac, tc, vc, version2, path) {
        assert(version_page_spec(ac, tc, vc, version, path)[4][1].0 == version_page_spec(ac, tc, vc, version2, path)[4][1].0);
        assert((pre + version).skip(pre.len() as int) =~= version);
        assert((pre + version2).skip(pre.len() as int) =~= version2);
    }
}

/// The config row cannot be cut in the middle of a character.
pub open spec fn version_page_ok(path: Seq<char>) -> bool {
    let s = "  Config    :  "@ + path;
    utf8_len(s) > 52 ==> crate::text::is_boundary(s, 51)
}

/// A row of the version box.
fn version_row_exec(ac: ColorName, label: String, paint: Paint) -> (l: Vec<Segment>)
    ensures
        crate::style::seg_views(l@) == version_row(ac, label@, paint),
{
    let n = byte_len(label.as_str());
    let pad: u128 = if n >= 52 {
        0
    } else {
        52 - n
    };
    let mut l = Vec::new();
    l.push(seg(owned("║"), Paint::FgBold(ac)));
    l.push(seg(label, paint));
    l.push(plain(spaces_string(pad)));
    l.push(seg(owned("║"), Paint::FgBold(ac)));
    assert(crate::style::seg_views(l@) =~= version_row(ac, label@, paint));
    l
}

/// Whether the config row can be cut where the version page cuts it.
pub fn version_page_fits(config_path: &str) -> (b: bool)
    ensures
        b == version_page_ok(config_path@),
{
    let mut s = owned("  Config    :  ");
    push_str(&mut s, config_path);
    let v = to_chars(s.as_str());
    let n = crate::text::vec_byte_len(&v);
    if n > 52 {
        crate::text::char_index_of_byte(&v, 51).is_some()
    } else {
        true
    }
}

/// The version page for program version `version` and config file
/// `config_path`.
pub fn print_version_page(cfg: &VaminfoConfig, version: &str, config_path: &str) -> (r: Vec<Vec<Segment>>)
    requires
        version_page_ok(config_path@),
    ensures
        seg_lines_views(r@) == version_page_spec(
            color_spec(cfg.ascii_color@),
            color_spec(cfg.title_color@),
            color_spec(cfg.value_color@),
            version@,
            config_path@,
        ),
{
    let ac = parse_color(cfg.ascii_color.as_str());
    let tc = parse_color(cfg.title_color.as_str());
    let vc = parse_color(cfg.value_color.as_str());
    let bar = repeat_str("═", 52);
    let mut top = owned("╔");
    push_str(&mut top, bar.as_str());
    push_str(&mut top, "╗");
    let mut sep = owned("╠");
    push_str(&mut sep, bar.as_str());
    push_str(&mut sep, "╣");
    let mut bottom = owned("╚");
    push_str(&mut bottom, bar.as_str());
    push_str(&mut bottom, "╝");
    let mut v_label = owned("  Version   :  v");
    push_str(&mut v_label, version);
    let mut cfg_str = owned("  Config    :  ");
    push_str(&mut cfg_str, config_path);
    let cv = to_chars(cfg_str.as_str());
    let c_trunc = if crate::text::vec_byte_len(&cv) > 52 {
        match crate::text::char_index_of_byte(&cv, 51) {
            Some(k) => {
                let mut t = crate::text::string_of(&cv, 0, k);
                push_str(&mut t, "~");
                assert(cv@.subrange(0, k as int) =~= cv@.take(k as int));
                t
            },
            None => {
                proof {
                    assert(false);
                }
                cfg_str
            },
        }
    } else {
        cfg_str
    };
    let block = repeat_str("█", 8);
    let mut r: Vec<Vec<Segment>> = Vec::new();
    push_line(&mut r, empty_line());
    push_line(&mut r, line_of(seg(top, Paint::FgBold(ac))));
    push_line(&mut r, version_row_exec(ac, owned("  V A M I N F O"), Paint::FgBold(tc)));
    push_line(&mut r, line_of(seg(sep.clone(), Paint::FgBold(ac))));
    push_line(&mut r, version_row_exec(ac, v_label, Paint::Fg(vc)));
    push_line(&mut r, version_row_exec(ac, owned("  Platform  :  Vamora OS"), Paint::Fg(vc)));
    push_line(&mut r, version_row_exec(ac, owned("  Tool      :  System Information"), Paint::Fg(vc)));
    push_line(&mut r, version_row_exec(ac, c_trunc, Paint::FgDimmed(vc)));
    push_line(&mut r, line_of(seg(sep, Paint::FgBold(ac))));
    let mut band: Vec<Segment> = Vec::new();
    band.push(seg(owned("║"), Paint::FgBold(ac)));
    band.push(seg(block.clone(), Paint::Fg(ColorName::Red)));
    band.push(seg(block.clone(), Paint::Fg(ColorName::Yellow)));
    band.push(seg(block.clone(), Paint::Fg(ColorName::Green)));
    band.push(seg(block.clone(), Paint::Fg(ColorName::Cyan)));
    band.push(seg(block.clone(), Paint::Fg(ColorName::Blue)));
    band.push(seg(block, Paint::Fg(ColorName::Magenta)));
    band.push(plain(spaces_string(4)));
    band.push(seg(owned("║"), Paint::FgBold(ac)));
    proof {
        assert(crate::style::seg_views(band@) =~= version_page_spec(
            ac,
            tc,
            vc,
            version@,
            config_path@,
        )[9]);
    }
    push_line(&mut r, band);
    push_line(&mut r, line_of(seg(bottom, Paint::FgBold(ac))));
    push_line(&mut r, empty_line());
    assert(seg_lines_views(r@) =~= version_page_spec(ac, tc, vc, version@, config_path@));
    r
}

// ── Information lines ───────────────────────────────────────────────────────

/// The pieces of `s` split at `c` into at most `n` pieces, the last holding
/// the unsplit rest (`str::splitn`).
pub open spec fn splitn_seq(s: Seq<char>, n: nat, c: char) -> Seq<Seq<char>> {
    let p = split_seq(s, c);
    if p.len() <= n {
        p
    } else {
        p.take(n - 1).push(join_seq(p.skip(n - 1), seq![c]))
    }
}

/// The key of a titled module: the title padded to 13, after the module's
/// icon and a space when icons are on.
#[verifier::opaque]
pub open spec fn entry_key(name: Seq<char>, icons: bool) -> Seq<char> {
    if icons {
        icon_from(name, 0) + " "@ + pad_to(name, 13)
    } else {
        pad_to(name, 13)
    }
}

/// The indent of continuation lines: under the value column, two columns
/// further when an icon and its space go before the key.
pub open spec fn entry_indent(icons: bool) -> nat {
    if icons {
        18
    } else {
        16
    }
}

/// The lines of a titled module value: key and colon before the value; a
/// value of several lines (at most 64, the last holding the rest) continues
/// under the value column.
pub open spec fn entry_lines(name: Seq<char>, value: Seq<char>, kc: ColorName, vc: ColorName, icons: bool) -> Seq<Seq<SegV>> {
    let key = (entry_key(name, icons), Paint::FgBold(kc));
    let colon = (" : "@, Paint::Fg(kc));
    if value.contains('\n') {
        let parts = splitn_seq(value, 64, '\n');
        seq![seq![key, colon, (parts[0], Paint::Fg(vc))]] + Seq::new(
            (parts.len() - 1) as nat,
            |i: int| seq![(spaces(entry_indent(icons)), Paint::Plain), (parts[i + 1], Paint::Fg(vc))],
        )
    } else {
        seq![seq![key, colon, (value, Paint::Fg(vc))]]
    }
}

/// The lines of an untitled module value (colour blocks): its raw lines.
pub open spec fn raw_lines(value: Seq<char>) -> Seq<Seq<SegV>> {
    plain_lines(split_seq(value, '\n'))
}

/// The body of the information lines for collected module values, and
/// whether a raw block has started (a blank line goes before the first).
pub open spec fn info_body(entries: Seq<(Seq<char>, Seq<char>)>, kc: ColorName, vc: ColorName, icons: bool) -> (Seq<Seq<SegV>>, bool)
    decreases entries.len(),
{
    if entries.len() == 0 {
        (Seq::empty(), false)
    } else {
        let (ls, hit) = info_body(entries.drop_last(), kc, vc, icons);
        let (n, v) = entries.last();
        if n.len() == 0 {
            let ls2 = if hit {
                ls
            } else {
                ls.push(Seq::empty())
            };
            (ls2 + raw_lines(v), true)
        } else {
            (ls + entry_lines(n, v, kc, vc, icons), hit)
        }
    }
}

/// The information lines: optional title, optional separator, then one
/// block per collected module value (titles after their icons when icons
/// are on).
pub open spec fn info_lines_spec(
    show_title: bool,
    show_separator: bool,
    separator: Seq<char>,
    tc: ColorName,
    kc: ColorName,
    vc: ColorName,
    icons: bool,
    title: Seq<char>,
    entries: Seq<(Seq<char>, Seq<char>)>,
) -> Seq<Seq<SegV>> {
    let head1: Seq<Seq<SegV>> = if show_title {
        seq![seq![(title, Paint::FgBold(tc))]]
    } else {
        Seq::empty()
    };
    let w = if utf8_len(title) > 30 {
        utf8_len(title)
    } else {
        30
    };
    let head2: Seq<Seq<SegV>> = if show_separator {
        seq![seq![(repeat_seq(separator, w), Paint::Fg(kc))]]
    } else {
        Seq::empty()
    };
    head1 + head2 + info_body(entries, kc, vc, icons).0
}

/// Whether `s` holds a newline.
fn has_newline(s: &str) -> (b: bool)
    ensures
        b == s@.contains('\n'),
{
    let v = to_chars(s);
    let mut i: usize = 0;
    while i < v.len()
        invariant
            i <= v.len(),
            v@ == s@,
            forall|j: int| 0 <= j < i ==> v@[j] != '\n',
        decreases v.len() - i,
    {
        if v[i] == '\n' {
            return true;
        }
        i = i + 1;
    }
    false
}

/// `str::splitn(n, c)`.
pub fn splitn_char(s: &str, n: usize, c: char) -> (r: Vec<String>)
    requires
        n >= 1,
    ensures
        views(r@) == splitn_seq(s@, n as nat, c),
{
    let p = split_char(s, c);
    if p.len() <= n {
        return p;
    }
    let mut r: Vec<String> = Vec::new();
    let mut i: usize = 0;
    while i < n - 1
        invariant
            i <= n - 1,
            n < p.len(),
            views(r@) == views(p@).take(i as int),
        decreases n - 1 - i,
    {
        proof {
            crate::text::lemma_views_push(r@, p@[i as int]);
            lemma_take_step(views(p@), i as int);
        }
        r.push(p[i].clone());
        i = i + 1;
    }
    let mut rest: Vec<String> = Vec::new();
    let mut j: usize = n - 1;
    while j < p.len()
        invariant
            1 <= n < p.len(),
            n - 1 <= j <= p.len(),
            views(p@).len() == p@.len(),
            views(rest@) == views(p@).subrange(n - 1, j as int),
        decreases p.len() - j,
    {
        proof {
            crate::text::lemma_views_push(rest@, p@[j as int]);
        }
        rest.push(p[j].clone());
        j = j + 1;
        assert(views(p@)[j - 1] == p@[j - 1]@);
        assert(views(rest@) =~= views(p@).subrange(n - 1, j as int));
    }
    let sep_str = crate::text::string_from(&{
        let mut v = Vec::new();
        v.push(c);
        v
    });
    proof {
        assert(views(p@).subrange(n - 1, p@.len() as int) =~= views(p@).skip(n - 1));
    }
    let tail = join(&rest, sep_str.as_str());
    proof {
        crate::text::lemma_views_push(r@, tail);
        assert(sep_str@ =~= seq![c]);
    }
    r.push(tail);
    r
}

/// Lines for a titled module value.
fn entry_lines_exec(name: &str, value: &str, kc: ColorName, vc: ColorName, icons: bool, lines: &mut Vec<Vec<Segment>>)
    ensures
        seg_lines_views(final(lines)@) == seg_lines_views(old(lines)@) + entry_lines(name@, value@, kc, vc, icons),
{
    let padded = pad_right(name, 13);
    let key = if icons {
        let mut k = owned(module_icon(name));
        push_str(&mut k, " ");
        push_str(&mut k, padded.as_str());
        k
    } else {
        padded
    };
    assert(key@ == entry_key(name@, icons)) by {
        reveal(entry_key);
    }
    if has_newline(value) {
        let parts = splitn_char(value, 64, '\n');
        proof {
            assert(split_seq(value@, '\n').len() >= 1);
            assert(views(parts@).len() == parts@.len());
        }
        let mut first: Vec<Segment> = Vec::new();
        first.push(seg(key, Paint::FgBold(kc)));
        first.push(seg(owned(" : "), Paint::Fg(kc)));
        first.push(seg(parts[0].clone(), Paint::Fg(vc)));
        proof {
            assert(views(parts@)[0] == parts@[0]@);
            assert(crate::style::seg_views(first@) =~= entry_lines(name@, value@, kc, vc, icons)[0]);
        }
        let ghost base = seg_lines_views(lines@);
        push_line(lines, first);
        let mut i: usize = 1;
        while i < parts.len()
            invariant
                1 <= i <= parts.len(),
                value@.contains('\n'),
                views(parts@) == splitn_seq(value@, 64, '\n'),
                seg_lines_views(lines@) == base + entry_lines(name@, value@, kc, vc, icons).take(i as int),
                entry_lines(name@, value@, kc, vc, icons).len() == parts.len(),
            decreases parts.len() - i,
        {
            let mut l: Vec<Segment> = Vec::new();
            let indent: u128 = if icons {
                18
            } else {
                16
            };
            l.push(plain(spaces_string(indent)));
            l.push(seg(parts[i].clone(), Paint::Fg(vc)));
            proof {
                assert(views(parts@)[i as int] == parts@[i as int]@);
                assert(crate::style::seg_views(l@) =~= entry_lines(name@, value@, kc, vc, icons)[i as int]);
            }
            push_line(lines, l);
            i = i + 1;
            assert(seg_lines_views(lines@) =~= base + entry_lines(name@, value@, kc, vc, icons).take(i as int));
        }
        assert(entry_lines(name@, value@, kc, vc, icons).take(i as int) =~= entry_lines(name@, value@, kc, vc, icons));
    } else {
        let mut l: Vec<Segment> = Vec::new();
        l.push(seg(key, Paint::FgBold(kc)));
        l.push(seg(owned(" : "), Paint::Fg(kc)));
        l.push(seg(owned(value), Paint::Fg(vc)));
        proof {
            assert(crate::style::seg_views(l@) =~= entry_lines(name@, value@, kc, vc, icons)[0]);
        }
        push_line(lines, l);
        assert(seg_lines_views(final(lines)@) =~= seg_lines_views(old(lines)@) + entry_lines(name@, value@, kc, vc, icons));
    }
}

/// The information lines for the title `user@host` and the collected
/// module values, as (module title, value) pairs in display order.
pub fn build_info_lines(cfg: &VaminfoConfig, title: &str, entries: &Vec<(String, String)>) -> (r: Vec<Vec<Segment>>)
    ensures
        seg_lines_views(r@) == info_lines_spec(
            cfg.show_title,
            cfg.show_separator,
            cfg.separator@,
            color_spec(cfg.title_color@),
            color_spec(cfg.key_color@),
            color_spec(cfg.value_color@),
            cfg.icons_enabled,
            title@,
            pair_views(entries@),
        ),
{
    let tc = parse_color(cfg.title_color.as_str());
    let kc = parse_color(cfg.key_color.as_str());
    let vc = parse_color(cfg.value_color.as_str());
    let mut lines: Vec<Vec<Segment>> = Vec::new();
    if cfg.show_title {
        push_line(&mut lines, line_of(seg(owned(title), Paint::FgBold(tc))));
    }
    if cfg.show_separator {
        let n = byte_len(title);
        let w: u128 = if n > 30 {
            n
        } else {
            30
        };
        push_line(&mut lines, line_of(seg(repeat_str(cfg.separator.as_str(), w), Paint::Fg(kc))));
    }
    let ghost head = seg_lines_views(lines@);
    let mut hit_raw = false;
    let mut i: usize = 0;
    while i < entries.len()
        invariant
            i <= entries.len(),
            seg_lines_views(lines@) == head + info_body(pair_views(entries@).take(i as int), kc, vc, cfg.icons_enabled).0,
            hit_raw == info_body(pair_views(entries@).take(i as int), kc, vc, cfg.icons_enabled).1,
        decreases entries.len() - i,
    {
        proof {
            lemma_take_step(pair_views(entries@), i as int);
        }
        let name = entries[i].0.as_str();
        let value = entries[i].1.as_str();
        let nv = to_chars(name);
        if nv.len() == 0 {
            if !hit_raw {
                push_line(&mut lines, empty_line());
                hit_raw = true;
            }
            let subs = split_char(value, '\n');
            let ghost before = seg_lines_views(lines@);
            let mut j: usize = 0;
            while j < subs.len()
                invariant
                    j <= subs.len(),
                    seg_lines_views(lines@) == before + plain_lines(views(subs@)).take(j as int),
                decreases subs.len() - j,
            {
                push_line(&mut lines, line_of(plain(subs[j].clone())));
                j = j + 1;
                assert(seg_lines_views(lines@) =~= before + plain_lines(views(subs@)).take(j as int));
            }
            assert(plain_lines(views(subs@)).take(j as int) =~= raw_lines(value@));
        } else {
            entry_lines_exec(name, value, kc, vc, cfg.icons_enabled, &mut lines);
        }
        i = i + 1;
        assert(seg_lines_views(lines@) =~= head + info_body(pair_views(entries@).take(i as int), kc, vc, cfg.icons_enabled).0);
    }
    assert(pair_views(entries@).take(i as int) =~= pair_views(entries@));
    assert(seg_lines_views(lines@) =~= info_lines_spec(
        cfg.show_title,
        cfg.show_separator,
        cfg.separator@,
        tc,
        kc,
        vc,
        cfg.icons_enabled,
        title@,
        pair_views(entries@),
    ));
    lines
}

// ── Layouts ─────────────────────────────────────────────────────────────────

/// Element `i` of `ls`, or the empty text past its end.
pub open spec fn line_or_empty(ls: Seq<Seq<char>>, i: int) -> Seq<char> {
    if 0 <= i < ls.len() {
        ls[i]
    } else {
        Seq::empty()
    }
}

/// One side-by-side row: the art line in the art colour, spaces up to the
/// art width plus four, then the information line, cut with
/// `truncate_to_visible` when it is wider than the room left.
pub open spec fn split_row(a: Seq<char>, info: Seq<char>, ac: ColorName, aw: nat, room: nat) -> Seq<SegV> {
    let pad = if aw >= visible_count(a) {
        (aw - visible_count(a)) as nat
    } else {
        0
    } + 4;
    let shown = if room > 0 && visible_count(info) > room {
        truncated(info, room)
    } else {
        info
    };
    seq![(a, Paint::Fg(ac)), (spaces(pad), Paint::Plain), (shown, Paint::Plain)]
}

/// The side-by-side page: as many rows as the longer column, then a blank
/// line. The information column gets the terminal width minus the art
/// width and five columns.
pub open spec fn split_spec(ascii: Seq<Seq<char>>, info: Seq<Seq<char>>, ac: ColorName, aw: nat, cols: nat) -> Seq<Seq<SegV>> {
    let room: nat = if cols >= aw + 5 {
        (cols - aw - 5) as nat
    } else {
        0
    };
    let n = if ascii.len() > info.len() {
        ascii.len()
    } else {
        info.len()
    };
    Seq::new(n, |i: int| split_row(line_or_empty(ascii, i), line_or_empty(info, i), ac, aw, room)).push(
        Seq::empty(),
    )
}

/// The side-by-side page shows every line of both columns: it has one row
/// per line of the longer column and then a blank line; row `i` starts with
/// art line `i` (for each art line) and ends with information line `i` (for
/// each information line), whole when it fits the room left beside the art,
/// else its visible characters cut to that room.
pub proof fn law_split_shows_every_line(
    ascii: Seq<Seq<char>>,
    info: Seq<Seq<char>>,
    ac: ColorName,
    aw: nat,
    cols: nat,
)
    ensures
        ({
            let page = split_spec(ascii, info, ac, aw, cols);
            let room: int = cols - aw - 5;
            &&& page.len() >= ascii.len() + 1
            &&& page.len() >= info.len() + 1
            &&& (page.len() == ascii.len() + 1 || page.len() == info.len() + 1)
            &&& page.last() == Seq::<SegV>::empty()
            &&& forall|i: int| 0 <= i < ascii.len() ==> (#[trigger] page[i])[0].0 == ascii[i]
            &&& forall|i: int|
                0 <= i < info.len() ==> {
                    let shown = (#[trigger] page[i]).last().0;
                    &&& (room <= 0 || visible_count(info[i]) <= room) ==> shown == info[i]
                    &&& room > 0 ==> visible_chars(shown) == visible_chars(info[i]).take(
                        if visible_count(info[i]) <= room {
                            visible_count(info[i]) as int
                        } else {
                            room
                        },
                    )
                }
        }),
{
    let page = split_spec(ascii, info, ac, aw, cols);
    let room: int = cols - aw - 5;
    assert forall|i: int| 0 <= i < info.len() implies {
        let shown = (#[trigger] page[i]).last().0;
        &&& (room <= 0 || visible_count(info[i]) <= room) ==> shown == info[i]
        &&& room > 0 ==> visible_chars(shown) == visible_chars(info[i]).take(
            if visible_count(info[i]) <= room {
                visible_count(info[i]) as int
            } else {
                room
            },
        )
    } by {
        assert(line_or_empty(info, i) == info[i]);
        if room > 0 {
            crate::ascii::law_truncate_keeps_visible_prefix(info[i], room as nat);
            if visible_count(info[i]) <= room {
                assert(info[i].take(info[i].len() as int) =~= info[i]);
                assert(visible_chars(info[i]).take(visible_count(info[i]) as int) =~= visible_chars(info[i]));
            }
        }
    }
    assert forall|i: int| 0 <= i < ascii.len() implies (#[trigger] page[i])[0].0 == ascii[i] by {
        assert(line_or_empty(ascii, i) == ascii[i]);
    }
}

/// Art and information side by side.
pub fn render_split(ascii: &Vec<String>, info: &Vec<String>, cfg: &VaminfoConfig, aw: usize, term_cols: usize) -> (r: Vec<Vec<Segment>>)
    ensures
        seg_lines_views(r@) == split_spec(
            views(ascii@),
            views(info@),
            color_spec(cfg.ascii_color@),
            aw as nat,
            term_cols as nat,
        ),
{
    let ac = parse_color(cfg.ascii_color.as_str());
    let padding: u128 = 4;
    let need: u128 = aw as u128 + padding + 1;
    let room: u128 = if term_cols as u128 >= need {
        term_cols as u128 - need
    } else {
        0
    };
    let n = if ascii.len() > info.len() {
        ascii.len()
    } else {
        info.len()
    };
    let ghost spec_rows = split_spec(views(ascii@), views(info@), ac, aw as nat, term_cols as nat);
    let mut lines: Vec<Vec<Segment>> = Vec::new();
    let mut i: usize = 0;
    while i < n
        invariant
            i <= n,
            n == if ascii.len() > info.len() {
                ascii.len()
            } else {
                info.len()
            },
            room == (if term_cols >= aw + 5 {
                term_cols - aw - 5
            } else {
                0int
            }),
            spec_rows == split_spec(views(ascii@), views(info@), ac, aw as nat, term_cols as nat),
            seg_lines_views(lines@) == spec_rows.take(i as int),
        decreases n - i,
    {
        let a = if i < ascii.len() {
            ascii[i].clone()
        } else {
            String::new()
        };
        let l = if i < info.len() {
            info[i].clone()
        } else {
            String::new()
        };
        let av = visible_len(a.as_str());
        let pad: u128 = if aw >= av {
            (aw - av) as u128
        } else {
            0
        } + 4;
        let lv = visible_len(l.as_str());
        let shown = if room > 0 && lv as u128 > room {
            truncate_to_visible(l.as_str(), room as usize)
        } else {
            l
        };
        let mut row: Vec<Segment> = Vec::new();
        row.push(seg(a, Paint::Fg(ac)));
        row.push(plain(spaces_string(pad)));
        row.push(plain(shown));
        proof {
            if i < ascii.len() {
                assert(views(ascii@)[i as int] == ascii@[i as int]@);
            }
            if i < info.len() {
                assert(views(info@)[i as int] == info@[i as int]@);
            }
            assert(crate::style::seg_views(row@) =~= spec_rows[i as int]);
        }
        push_line(&mut lines, row);
        i = i + 1;
        assert(seg_lines_views(lines@) =~= spec_rows.take(i as int));
    }
    push_line(&mut lines, empty_line());
    assert(seg_lines_views(lines@) =~= spec_rows);
    lines
}

/// Art lines in the art colour.
pub open spec fn art_lines(ascii: Seq<Seq<char>>, ac: ColorName) -> Seq<Seq<SegV>> {
    ascii.map_values(|l: Seq<char>| seq![(l, Paint::Fg(ac))])
}

/// The information lines alone, then a blank line.
pub open spec fn info_only_spec(info: Seq<Seq<char>>) -> Seq<Seq<SegV>> {
    plain_lines(info).push(Seq::empty())
}

/// Art on top, a blank line, then the information lines and a blank line.
pub open spec fn stacked_spec(ascii: Seq<Seq<char>>, info: Seq<Seq<char>>, ac: ColorName) -> Seq<Seq<SegV>> {
    art_lines(ascii, ac).push(Seq::empty()) + info_only_spec(info)
}

fn push_plain_lines(lines: &mut Vec<Vec<Segment>>, src: &Vec<String>)
    ensures
        seg_lines_views(final(lines)@) == seg_lines_views(old(lines)@) + plain_lines(views(src@)),
{
    let ghost before = seg_lines_views(lines@);
    let mut i: usize = 0;
    while i < src.len()
        invariant
            i <= src.len(),
            seg_lines_views(lines@) == before + plain_lines(views(src@)).take(i as int),
        decreases src.len() - i,
    {
        push_line(lines, line_of(plain(src[i].clone())));
        i = i + 1;
        assert(seg_lines_views(lines@) =~= before + plain_lines(views(src@)).take(i as int));
    }
    assert(plain_lines(views(src@)).take(i as int) =~= plain_lines(views(src@)));
}

/// Information lines alone.
pub fn render_info_only(info: &Vec<String>) -> (r: Vec<Vec<Segment>>)
    ensures
        seg_lines_views(r@) == info_only_spec(views(info@)),
{
    let mut lines: Vec<Vec<Segment>> = Vec::new();
    push_plain_lines(&mut lines, info);
    push_line(&mut lines, empty_line());
    assert(seg_lines_views(lines@) =~= info_only_spec(views(info@)));
    lines
}

/// Art on top of the information.
pub fn render_stacked(ascii: &Vec<String>, info: &Vec<String>, cfg: &VaminfoConfig) -> (r: Vec<Vec<Segment>>)
    ensures
        seg_lines_views(r@) == stacked_spec(views(ascii@), views(info@), color_spec(cfg.ascii_color@)),
{
    let ac = parse_color(cfg.ascii_color.as_str());
    let mut lines: Vec<Vec<Segment>> = Vec::new();
    let mut i: usize = 0;
    while i < ascii.len()
        invariant
            i <= ascii.len(),
            seg_lines_views(lines@) == art_lines(views(ascii@), ac).take(i as int),
        decreases ascii.len() - i,
    {
        push_line(&mut lines, line_of(seg(ascii[i].clone(), Paint::Fg(ac))));
        i = i + 1;
        assert(seg_lines_views(lines@) =~= art_lines(views(ascii@), ac).take(i as int));
    }
    assert(art_lines(views(ascii@), ac).take(i as int) =~= art_lines(views(ascii@), ac));
    push_line(&mut lines, empty_line());
    let ghost mid = seg_lines_views(lines@);
    push_plain_lines(&mut lines, info);
    push_line(&mut lines, empty_line());
    assert(seg_lines_views(lines@) =~= stacked_spec(views(ascii@), views(info@), ac));
    lines
}

// ── Full page ───────────────────────────────────────────────────────────────

/// What a page is made from: the art lines, the `user@host` title, the
/// collected module values, the terminal size, and the usage bar shown in
/// the mini box's RAM row.
pub struct PageData {
    pub ascii: Vec<String>,
    pub title: String,
    pub entries: Vec<(String, String)>,
    pub term: TerminalSize,
    pub ram_bar: String,
}

/// The full page given the printed information lines: side by side or
/// stacked by `decide_layout`; without art (mini mode) only the
/// information.
pub open spec fn full_page_spec(
    mini: bool,
    ascii: Seq<Seq<char>>,
    info: Seq<Seq<char>>,
    ac: ColorName,
    cols: nat,
    rows: nat,
) -> Seq<Seq<SegV>> {
    if mini {
        info_only_spec(info)
    } else {
        let aw = max_visible(ascii);
        if layout_for(cols as int, rows as int, aw as int) == LayoutMode::Split {
            split_spec(ascii, info, ac, aw, cols)
        } else {
            stacked_spec(ascii, info, ac)
        }
    }
}

/// The information lines of a page.
pub open spec fn page_info_spec(cfg: VaminfoConfig, page: PageData) -> Seq<Seq<SegV>> {
    info_lines_spec(
        cfg.show_title,
        cfg.show_separator,
        cfg.separator@,
        color_spec(cfg.title_color@),
        color_spec(cfg.key_color@),
        color_spec(cfg.value_color@),
        cfg.icons_enabled,
        page.title@,
        pair_views(page.entries@),
    )
}

/// The full system-information page, printed: the information lines are
/// printed first, then placed next to or under the art.
pub fn render_full(cfg: &VaminfoConfig, page: &PageData) -> (r: Vec<String>)
    ensures
        exists|info: Seq<Seq<char>>|
            #![trigger full_page_spec(cfg.mini_mode, views(page.ascii@), info, color_spec(cfg.ascii_color@), page.term.cols as nat, page.term.rows as nat)]
            lines_render_as(page_info_spec(*cfg, *page), info) && lines_render_as(
                full_page_spec(
                    cfg.mini_mode,
                    views(page.ascii@),
                    info,
                    color_spec(cfg.ascii_color@),
                    page.term.cols as nat,
                    page.term.rows as nat,
                ),
                views(r@),
            ),
{
    let show_ascii = !cfg.mini_mode;
    let info_segs = build_info_lines(cfg, page.title.as_str(), &page.entries);
    let info = render_lines(&info_segs);
    let segs = if show_ascii {
        let aw = ascii_width(&page.ascii);
        match decide_layout(&page.term, aw) {
            LayoutMode::Split => render_split(&page.ascii, &info, cfg, aw, page.term.cols as usize),
            LayoutMode::Stacked => render_stacked(&page.ascii, &info, cfg),
        }
    } else {
        render_info_only(&info)
    };
    let ghost full = full_page_spec(
        cfg.mini_mode,
        views(page.ascii@),
        views(info@),
        color_spec(cfg.ascii_color@),
        page.term.cols as nat,
        page.term.rows as nat,
    );
    assert(seg_lines_views(segs@) == full);
    let r = render_lines(&segs);
    assert(lines_render_as(page_info_spec(*cfg, *page), views(info@)));
    assert(lines_render_as(full, views(r@)));
    r
}

// ── Mini mode ───────────────────────────────────────────────────────────────

/// The widest `key : value` row in bytes.
pub open spec fn max_row_len(rows: Seq<(Seq<char>, Seq<char>)>) -> nat
    decreases rows.len(),
{
    if rows.len() == 0 {
        0
    } else {
        let m = max_row_len(rows.drop_last());
        let w = utf8_len(rows.last().0) + 3 + utf8_len(rows.last().1);
        if w > m {
            w
        } else {
            m
        }
    }
}

/// Inner width of the mini box: the widest row, or the title with a space
/// each side, at least 40 and at most 70.
pub open spec fn mini_inner(rows: Seq<(Seq<char>, Seq<char>)>, title: Seq<char>) -> nat {
    let a = if max_row_len(rows) > utf8_len(title) + 2 {
        max_row_len(rows)
    } else {
        utf8_len(title) + 2
    };
    let b: nat = if a > 40 {
        a
    } else {
        40
    };
    if b < 70 {
        b
    } else {
        70
    }
}

/// The value shown in a mini row: the RAM row gets the usage bar after it.
pub open spec fn mini_base(k: Seq<char>, v: Seq<char>, bar: Seq<char>) -> Seq<char> {
    if k == "RAM"@ {
        v + "  "@ + bar
    } else {
        v
    }
}

/// Room for a value in a mini row.
pub open spec fn mini_value_room(inner: nat) -> nat {
    if inner >= 14 {
        (inner - 14) as nat
    } else {
        0
    }
}

/// A value cut to the room: when longer (in bytes), its first `room - 1`
/// bytes and `~`.
pub open spec fn mini_display(base: Seq<char>, room: nat) -> Seq<char> {
    if utf8_len(base) > room {
        crate::text::byte_prefix(base, if room >= 1 { room - 1 } else { 0 }) + "~"@
    } else {
        base
    }
}

/// The value of a mini row can be cut where the box cuts it.
pub open spec fn mini_row_ok(base: Seq<char>, room: nat) -> bool {
    utf8_len(base) > room ==> crate::text::is_boundary(base, if room >= 1 { room - 1 } else { 0 })
}

/// Every value of the mini box can be cut where the box cuts it.
pub open spec fn mini_ok(rows: Seq<(Seq<char>, Seq<char>)>, title: Seq<char>, bar: Seq<char>) -> bool {
    forall|i: int|
        0 <= i < rows.len() ==> mini_row_ok(
            mini_base(#[trigger] rows[i].0, rows[i].1, bar),
            mini_value_room(mini_inner(rows, title)),
        )
}

/// One row of the mini box.
pub open spec fn mini_row(k: Seq<char>, v: Seq<char>, bar: Seq<char>, inner: nat, ac: ColorName, kc: ColorName, vc: ColorName) -> Seq<SegV> {
    let d = mini_display(mini_base(k, v, bar), mini_value_room(inner));
    let vis = 13 + utf8_len(d);
    let pad: nat = if inner >= vis {
        (inner - vis) as nat
    } else {
        0
    };
    seq![
        ("│"@, Paint::Fg(ac)),
        ("  "@, Paint::Plain),
        (pad_to(k, 8), Paint::FgBold(kc)),
        (" : "@, Paint::Fg(kc)),
        (d, Paint::Fg(vc)),
        (spaces(pad), Paint::Plain),
        ("│"@, Paint::Fg(ac)),
    ]
}

/// The mini box: a rounded box titled `user@host` around one `key : value`
/// row per module, then a blank line.
pub open spec fn mini_spec(
    rows: Seq<(Seq<char>, Seq<char>)>,
    title: Seq<char>,
    bar: Seq<char>,
    ac: ColorName,
    tc: ColorName,
    kc: ColorName,
    vc: ColorName,
) -> Seq<Seq<SegV>> {
    let inner = mini_inner(rows, title);
    let dash: nat = if inner >= utf8_len(title) + 2 {
        (inner - utf8_len(title) - 2) as nat
    } else {
        0
    };
    let top = seq![
        ("╭"@, Paint::Fg(ac)),
        (" "@ + title + " "@, Paint::FgBold(tc)),
        (repeat_seq("─"@, dash), Paint::Fg(ac)),
        ("╮"@, Paint::Fg(ac)),
    ];
    let bottom = seq![
        ("╰"@, Paint::Fg(ac)),
        (repeat_seq("─"@, inner), Paint::Fg(ac)),
        ("╯"@, Paint::Fg(ac)),
    ];
    seq![top] + rows.map_values(|r: (Seq<char>, Seq<char>)| mini_row(r.0, r.1, bar, inner, ac, kc, vc)) + seq![
        bottom,
        Seq::empty(),
    ]
}

/// The inner width of the mini box.
fn mini_inner_exec(rows: &Vec<(String, String)>, title: &str) -> (w: u128)
    ensures
        w == mini_inner(pair_views(rows@), title@),
{
    let mut m: u128 = 0;
    let mut i: usize = 0;
    while i < rows.len()
        invariant
            i <= rows.len(),
            m == max_row_len(pair_views(rows@).take(i as int)),
        decreases rows.len() - i,
    {
        proof {
            lemma_take_step(pair_views(rows@), i as int);
            crate::text::lemma_utf8_len_ge_len(rows@[i as int].0@);
        }
        let kl = byte_len(rows[i].0.as_str());
        let vl = byte_len(rows[i].1.as_str());
        let w = kl + 3 + vl;
        if w > m {
            m = w;
        }
        i = i + 1;
    }
    assert(pair_views(rows@).take(i as int) =~= pair_views(rows@));
    let t = byte_len(title) + 2;
    let a = if m > t {
        m
    } else {
        t
    };
    let b = if a > 40 {
        a
    } else {
        40
    };
    if b < 70 {
        b
    } else {
        70
    }
}

/// The shown value of a mini row, and whether it fits where the box cuts.
fn mini_base_exec(k: &str, v: &str, bar: &str) -> (r: String)
    ensures
        r@ == mini_base(k@, v@, bar@),
{
    let mut r = owned(v);
    if crate::text::str_eq(k, "RAM") {
        push_str(&mut r, "  ");
        push_str(&mut r, bar);
    }
    r
}

fn mini_display_exec(base: String, room: u128) -> (r: Option<String>)
    ensures
        match r {
            Some(d) => mini_row_ok(base@, room as nat) && d@ == mini_display(base@, room as nat),
            None => !mini_row_ok(base@, room as nat),
        },
{
    let bv = to_chars(base.as_str());
    let n = crate::text::vec_byte_len(&bv);
    if n > room {
        let cut: u128 = if room >= 1 {
            room - 1
        } else {
            0
        };
        match crate::text::char_index_of_byte(&bv, cut) {
            Some(k) => {
                let mut d = crate::text::string_of(&bv, 0, k);
                push_str(&mut d, "~");
                assert(bv@.subrange(0, k as int) =~= bv@.take(k as int));
                Some(d)
            },
            None => None,
        }
    } else {
        Some(base)
    }
}

/// Whether every value of the mini box can be cut where the box cuts it
/// (the box cuts by bytes and cannot split a character).
pub fn mini_fits(rows: &Vec<(String, String)>, title: &str, bar: &str) -> (b: bool)
    ensures
        b == mini_ok(pair_views(rows@), title@, bar@),
{
    let inner = mini_inner_exec(rows, title);
    let room: u128 = if inner >= 14 {
        inner - 14
    } else {
        0
    };
    let mut i: usize = 0;
    while i < rows.len()
        invariant
            i <= rows.len(),
            inner == mini_inner(pair_views(rows@), title@),
            room == mini_value_room(inner as nat),
            forall|j: int|
                0 <= j < i ==> mini_row_ok(
                    mini_base(#[trigger] pair_views(rows@)[j].0, pair_views(rows@)[j].1, bar@),
                    room as nat,
                ),
        decreases rows.len() - i,
    {
        let base = mini_base_exec(rows[i].0.as_str(), rows[i].1.as_str(), bar);
        proof {
            assert(pair_views(rows@)[i as int] == (rows@[i as int].0@, rows@[i as int].1@));
        }
        match mini_display_exec(base, room) {
            Some(_) => {},
            None => {
                proof {
                    assert(pair_views(rows@)[i as int] == (rows@[i as int].0@, rows@[i as int].1@));
                    assert(!mini_row_ok(
                        mini_base(pair_views(rows@)[i as int].0, pair_views(rows@)[i as int].1, bar@),
                        room as nat,
                    ));
                }
                return false;
            },
        }
        i = i + 1;
    }
    true
}

/// The mini box around the given `key : value` rows. The usage bar `bar`
/// follows the RAM row's value.
pub fn render_mini(cfg: &VaminfoConfig, title: &str, rows: &Vec<(String, String)>, bar: &str) -> (r: Vec<Vec<Segment>>)
    requires
        mini_ok(pair_views(rows@), title@, bar@),
    ensures
        seg_lines_views(r@) == mini_spec(
            pair_views(rows@),
            title@,
            bar@,
            color_spec(cfg.ascii_color@),
            color_spec(cfg.title_color@),
            color_spec(cfg.key_color@),
            color_spec(cfg.value_color@),
        ),
{
    let kc = parse_color(cfg.key_color.as_str());
    let vc = parse_color(cfg.value_color.as_str());
    let tc = parse_color(cfg.title_color.as_str());
    let ac = parse_color(cfg.ascii_color.as_str());
    let inner = mini_inner_exec(rows, title);
    let tl = byte_len(title) + 2;
    let dash: u128 = if inner >= tl {
        inner - tl
    } else {
        0
    };
    let mut section = owned(" ");
    push_str(&mut section, title);
    push_str(&mut section, " ");
    let mut top: Vec<Segment> = Vec::new();
    top.push(seg(owned("╭"), Paint::Fg(ac)));
    top.push(seg(section, Paint::FgBold(tc)));
    top.push(seg(repeat_str("─", dash), Paint::Fg(ac)));
    top.push(seg(owned("╮"), Paint::Fg(ac)));
    let ghost spec_lines = mini_spec(pair_views(rows@), title@, bar@, ac, tc, kc, vc);
    proof {
        assert(crate::style::seg_views(top@) =~= spec_lines[0]);
    }
    let mut lines: Vec<Vec<Segment>> = Vec::new();
    push_line(&mut lines, top);
    let room: u128 = if inner >= 14 {
        inner - 14
    } else {
        0
    };
    let mut i: usize = 0;
    while i < rows.len()
        invariant
            i <= rows.len(),
            inner == mini_inner(pair_views(rows@), title@),
            room == mini_value_room(inner as nat),
            mini_ok(pair_views(rows@), title@, bar@),
            spec_lines == mini_spec(pair_views(rows@), title@, bar@, ac, tc, kc, vc),
            seg_lines_views(lines@) == spec_lines.take(i + 1),
        decreases rows.len() - i,
    {
        let k = rows[i].0.as_str();
        let base = mini_base_exec(k, rows[i].1.as_str(), bar);
        proof {
            assert(pair_views(rows@)[i as int] == (rows@[i as int].0@, rows@[i as int].1@));
            assert(mini_row_ok(mini_base(pair_views(rows@)[i as int].0, pair_views(rows@)[i as int].1, bar@), room as nat));
        }
        let d = match mini_display_exec(base, room) {
            Some(d) => d,
            None => {
                proof {
                    assert(false);
                }
                String::new()
            },
        };
        let vis = 13 + byte_len(d.as_str());
        let pad: u128 = if inner >= vis {
            inner - vis
        } else {
            0
        };
        let mut row: Vec<Segment> = Vec::new();
        row.push(seg(owned("│"), Paint::Fg(ac)));
        row.push(plain(owned("  ")));
        row.push(seg(pad_right(k, 8), Paint::FgBold(kc)));
        row.push(seg(owned(" : "), Paint::Fg(kc)));
        row.push(seg(d, Paint::Fg(vc)));
        row.push(plain(spaces_string(pad)));
        row.push(seg(owned("│"), Paint::Fg(ac)));
        proof {
            assert(crate::style::seg_views(row@) =~= spec_lines[i + 1]);
        }
        push_line(&mut lines, row);
        i = i + 1;
        assert(seg_lines_views(lines@) =~= spec_lines.take(i + 1));
    }
    let mut bottom: Vec<Segment> = Vec::new();
    bottom.push(seg(owned("╰"), Paint::Fg(ac)));
    bottom.push(seg(repeat_str("─", inner), Paint::Fg(ac)));
    bottom.push(seg(owned("╯"), Paint::Fg(ac)));
    proof {
        assert(crate::style::seg_views(bottom@) =~= spec_lines[rows.len() + 1]);
    }
    push_line(&mut lines, bottom);
    push_line(&mut lines, empty_line());
    assert(seg_lines_views(lines@) =~= spec_lines);
    lines
}

/// The page to print: the mini box in mini mode (its rows are the
/// collected entries), otherwise the full page.
pub fn render(cfg: &VaminfoConfig, page: &PageData) -> (r: Vec<String>)
    requires
        cfg.mini_mode ==> mini_ok(pair_views(page.entries@), page.title@, page.ram_bar@),
    ensures
        cfg.mini_mode ==> lines_render_as(
            mini_spec(
                pair_views(page.entries@),
                page.title@,
                page.ram_bar@,
                color_spec(cfg.ascii_color@),
                color_spec(cfg.title_color@),
                color_spec(cfg.key_color@),
                color_spec(cfg.value_color@),
            ),
            views(r@),
        ),
        !cfg.mini_mode ==> exists|info: Seq<Seq<char>>|
            #![trigger full_page_spec(false, views(page.ascii@), info, color_spec(cfg.ascii_color@), page.term.cols as nat, page.term.rows as nat)]
            lines_render_as(page_info_spec(*cfg, *page), info) && lines_render_as(
                full_page_spec(
                    false,
                    views(page.ascii@),
                    info,
                    color_spec(cfg.ascii_color@),
                    page.term.cols as nat,
                    page.term.rows as nat,
                ),
                views(r@),
            ),
{
    if cfg.mini_mode {
        let segs = render_mini(cfg, page.title.as_str(), &page.entries, page.ram_bar.as_str());
        render_lines(&segs)
    } else {
        render_full(cfg, page)
    }
}

} // verus!
