//! ASCII art: the built-in logo, choosing between it and a user file, and
//! measuring and cutting text that carries ANSI colour sequences.

use vstd::prelude::*;
use crate::text::{
    lemma_take_step, lemma_views_push, lines, lines_seq, push_char, push_str, to_chars, trim, trim_bounds,
    views,
};

verus! {

/// The built-in Vamora logo.
pub const DEFAULT_ASCII: &'static str = r#"
          ▒▒▒▒▒▒▒▒▒▒▒▒▒▒▒▒▒▒▒▒▒▒▒▒▒▒▒▒▒▒▒       
       ▒▒▒▒▒▒▒▒▒▒▒▒▒▒▒▒▒▒▒▒▒▒▒▒▒▒▒▒▒▒▒▒▒▒▒▒▒    
     ▒▒▒▒▒▒▒▒▒▒▒▒▒▒▒▒▒▒▒▒▒▒▒▒▒▒▒▒▒▒▒▒▒▒▒▒▒▒▒▒▒  
    ▒▒▒▒▒▒▒▒▒▒   ▒▒▒▒▒▒▒▒▒▒   ▒▒▒▒   ▒▒▒▒▒▒▒▒▒▒ 
   ▒▒▒▒▒▒▒▒▒▒     ▒▒▒▒▒▒▒▒     ▒▒     ▒▒▒▒▒▒▒▒▒▒
   ▒▒▒▒▒▒▒▒▒▒     ▒▒▒▒▒▒▒      ▒      ▒▒▒▒▒▒▒▒▒▒
   ▒▒▒▒▒▒▒▒▒▒     ▒▒▒▒▒▒      ▒       ▒▒▒▒▒▒▒▒▒▒
   ▒▒▒▒▒▒▒▒▒▒     ▒▒▒▒▒      ▒        ▒▒▒▒▒▒▒▒▒▒
   ▒▒▒▒▒▒▒▒▒▒     ▒▒▒▒      ▒         ▒▒▒▒▒▒▒▒▒▒
   ▒▒▒▒▒▒▒▒▒▒     ▒▒▒      ▒          ▒▒▒▒▒▒▒▒▒▒
   ▒▒▒▒▒▒▒▒▒▒     ▒▒      ▒           ▒▒▒▒▒▒▒▒▒▒
   ▒▒▒▒▒▒▒▒▒▒     ▒      ▒░           ▒▒▒▒▒▒▒▒▒▒
   ▒▒▒▒▒▒▒▒▒▒     ░      ▒      ▒     ▒▒▒▒▒▒▒▒▒▒
   ▒▒▒▒▒▒▒▒▒▒           ▒      ▒▒     ▒▒▒▒▒▒▒▒▒▒
   ▒▒▒▒▒▒▒▒▒▒          ▒      ▒▒▒     ▒▒▒▒▒▒▒▒▒▒
   ▒▒▒▒▒▒▒▒▒▒         ▒      ▒▒▒▒     ▒▒▒▒▒▒▒▒▒▒
   ▒▒▒▒▒▒▒▒▒▒        ▒      ▒▒▒▒▒     ▒▒▒▒▒▒▒▒▒▒
   ▒▒▒▒▒▒▒▒▒▒       ▒      ▒▒▒▒▒▒     ▒▒▒▒▒▒▒▒▒▒
   ▒▒▒▒▒▒▒▒▒▒      ▒      ░▒▒▒▒▒▒     ▒▒▒▒▒▒▒▒▒▒
   ▒▒▒▒▒▒▒▒▒▒     ▒▒      ▒▒▒▒▒▒▒     ▒▒▒▒▒▒▒▒▒▒
    ▒▒▒▒▒▒▒▒▒▒   ▒▒▒▒   ▒▒▒▒▒▒▒▒▒▒   ▒▒▒▒▒▒▒▒▒▒ 
     ▒▒▒▒▒▒▒▒▒▒▒▒▒▒▒▒▒▒▒▒▒▒▒▒▒▒▒▒▒▒▒▒▒▒▒▒▒▒▒▒▒  
       ▒▒▒▒▒▒▒▒▒▒▒▒▒▒▒▒▒▒▒▒▒▒▒▒▒▒▒▒▒▒▒▒▒▒▒▒▒    
         ▒▒▒▒▒▒▒▒▒▒▒▒▒▒▒▒▒▒▒▒▒▒▒▒▒▒▒▒▒▒▒       
"#;

/// The escape character that starts an ANSI sequence.
pub open spec fn esc() -> char {
    '\x1b'
}

/// Scan of `s` for visible characters: the visible characters so far, and
/// whether the scan is inside an escape sequence (from `ESC` up to the next
/// `m`).
pub open spec fn vis_state(s: Seq<char>) -> (Seq<char>, bool)
    decreases s.len(),
{
    if s.len() == 0 {
        (Seq::empty(), false)
    } else {
        let (v, e) = vis_state(s.drop_last());
        let c = s.last();
        if c == esc() {
            (v, true)
        } else if e && c == 'm' {
            (v, false)
        } else if !e {
            (v.push(c), false)
        } else {
            (v, true)
        }
    }
}

/// The characters of `s` that show on a terminal.
pub open spec fn visible_chars(s: Seq<char>) -> Seq<char> {
    vis_state(s).0
}

/// How many characters of `s` show on a terminal.
pub open spec fn visible_count(s: Seq<char>) -> nat {
    visible_chars(s).len()
}

/// The widest visible line.
pub open spec fn max_visible(lines: Seq<Seq<char>>) -> nat
    decreases lines.len(),
{
    if lines.len() == 0 {
        0
    } else {
        let m = max_visible(lines.drop_last());
        let w = visible_count(lines.last());
        if w > m {
            w
        } else {
            m
        }
    }
}

/// The colour-reset sequence `ESC[0m`.
pub open spec fn reset_seq() -> Seq<char> {
    seq![esc(), '[', '0', 'm']
}

/// State of the truncating scan.
pub struct TruncState {
    pub out: Seq<char>,
    pub vis: nat,
    pub in_esc: bool,
    pub esc_buf: Seq<char>,
    pub stopped: bool,
}

/// One step of the truncating scan: escape sequences are buffered and
/// emitted whole, and only while fewer than `max` visible characters have
/// been emitted; the scan stops at the first visible character past `max`.
pub open spec fn trunc_step(st: TruncState, c: char, max: nat) -> TruncState {
    if st.stopped {
        st
    } else if c == esc() {
        TruncState { in_esc: true, esc_buf: seq![c], ..st }
    } else if st.in_esc {
        let buf = st.esc_buf.push(c);
        if c == 'm' {
            TruncState {
                in_esc: false,
                esc_buf: buf,
                out: if st.vis < max {
                    st.out + buf
                } else {
                    st.out
                },
                ..st
            }
        } else {
            TruncState { esc_buf: buf, ..st }
        }
    } else if st.vis >= max {
        TruncState { stopped: true, ..st }
    } else {
        TruncState { out: st.out.push(c), vis: st.vis + 1, ..st }
    }
}

/// The truncating scan over all of `s`.
pub open spec fn trunc_state(s: Seq<char>, max: nat) -> TruncState
    decreases s.len(),
{
    if s.len() == 0 {
        TruncState {
            out: Seq::empty(),
            vis: 0,
            in_esc: false,
            esc_buf: Seq::empty(),
            stopped: false,
        }
    } else {
        trunc_step(trunc_state(s.drop_last(), max), s.last(), max)
    }
}

/// `s` cut to at most `max` visible characters: unchanged when it fits,
/// otherwise the scanned prefix followed by a colour reset.
pub open spec fn truncated(s: Seq<char>, max: nat) -> Seq<char> {
    if visible_count(s) <= max {
        s
    } else {
        trunc_state(s, max).out + reset_seq()
    }
}

// ── Proofs about the scans ──────────────────────────────────────────────────

/// An escape body: neither `ESC` nor `m`.
pub open spec fn esc_body(b: Seq<char>) -> bool {
    forall|i: int| 0 <= i < b.len() ==> #[trigger] b[i] != esc() && b[i] != 'm'
}

/// Outside an escape sequence, a complete sequence `ESC body m` adds nothing
/// visible and ends outside an escape sequence.
pub proof fn lemma_vis_escape(a: Seq<char>, body: Seq<char>)
    requires
        esc_body(body),
    ensures
        vis_state(a + seq![esc()] + body + seq!['m']) == (vis_state(a).0, false),
{
    lemma_vis_escape_body(a + seq![esc()], body);
    let s = a + seq![esc()] + body + seq!['m'];
    assert(s.drop_last() =~= a + seq![esc()] + body);
    assert((a + seq![esc()]).drop_last() =~= a);
}

proof fn lemma_vis_escape_body(p: Seq<char>, body: Seq<char>)
    requires
        esc_body(body),
        p.len() > 0,
        p.last() == esc(),
    ensures
        vis_state(p + body) == (vis_state(p.drop_last()).0, true),
    decreases body.len(),
{
    if body.len() == 0 {
        assert(p + body =~= p);
    } else {
        lemma_vis_escape_body(p, body.drop_last());
        assert((p + body).drop_last() =~= p + body.drop_last());
    }
}

/// The visible characters of a prefix are a prefix of the visible
/// characters of the whole.
pub proof fn lemma_visible_prefix(s: Seq<char>, i: int)
    requires
        0 <= i <= s.len(),
    ensures
        visible_chars(s.take(i)).len() <= visible_chars(s).len(),
        visible_chars(s).take(visible_chars(s.take(i)).len() as int) == visible_chars(s.take(i)),
    decreases s.len() - i,
{
    if i == s.len() {
        assert(s.take(i) =~= s);
    } else {
        lemma_visible_prefix(s, i + 1);
        lemma_take_step(s, i);
        let a = visible_chars(s.take(i));
        let b = visible_chars(s.take(i + 1));
        assert(b == a || b == a.push(s[i]));
        assert(visible_chars(s).take(a.len() as int) =~= b.take(a.len() as int));
        assert(b.take(a.len() as int) =~= a);
    }
}

/// What the truncating scan keeps true of the prefix `p` it has read.
pub open spec fn trunc_inv(p: Seq<char>, max: nat, st: TruncState) -> bool {
    &&& st.vis <= max
    &&& !vis_state(st.out).1
    &&& st.in_esc ==> (st.esc_buf.len() > 0 && st.esc_buf[0] == esc() && esc_body(
        st.esc_buf.drop_first(),
    ))
    &&& !st.stopped ==> {
        &&& st.vis == visible_count(p)
        &&& visible_chars(st.out) == visible_chars(p)
        &&& st.in_esc == vis_state(p).1
    }
    &&& st.stopped ==> {
        &&& st.vis == max
        &&& visible_count(p) > max
        &&& visible_chars(st.out) == visible_chars(p).take(max as int)
    }
}

proof fn lemma_trunc_inv(s: Seq<char>, max: nat)
    ensures
        trunc_inv(s, max, trunc_state(s, max)),
    decreases s.len(),
{
    if s.len() > 0 {
        let p = s.drop_last();
        let c = s.last();
        lemma_trunc_inv(p, max);
        let st0 = trunc_state(p, max);
        let st = trunc_state(s, max);
        if st0.stopped {
            assert(visible_chars(s).take(max as int) =~= visible_chars(p).take(max as int));
        } else if c == esc() {
            assert(seq![c].drop_first() =~= Seq::<char>::empty());
        } else if st0.in_esc {
            let buf = st0.esc_buf.push(c);
            assert(buf.drop_first() =~= st0.esc_buf.drop_first().push(c));
            if c == 'm' {
                if st0.vis < max {
                    let body = st0.esc_buf.drop_first();
                    assert(buf =~= seq![esc()] + body + seq!['m']);
                    assert(st0.out + buf =~= st0.out + seq![esc()] + body + seq!['m']);
                    lemma_vis_escape(st0.out, body);
                }
            }
        } else if st0.vis >= max {
            assert(visible_chars(s) =~= visible_chars(p).push(c));
            assert(visible_chars(s).take(max as int) =~= visible_chars(p));
        } else {
            assert(st0.out.push(c).drop_last() =~= st0.out);
        }
    }
}

/// Text that does not end inside an escape sequence, followed by more text:
/// the visible characters are those of the first part followed by those of
/// the second, so visible widths add, and the whole ends inside an escape
/// sequence exactly when the second part does.
pub proof fn law_visible_concat(a: Seq<char>, b: Seq<char>)
    requires
        !vis_state(a).1,
    ensures
        visible_chars(a + b) == visible_chars(a) + visible_chars(b),
        visible_count(a + b) == visible_count(a) + visible_count(b),
        vis_state(a + b).1 == vis_state(b).1,
    decreases b.len(),
{
    if b.len() == 0 {
        assert(a + b =~= a);
        assert(visible_chars(a) + visible_chars(b) =~= visible_chars(a));
    } else {
        law_visible_concat(a, b.drop_last());
        assert((a + b).drop_last() =~= a + b.drop_last());
        assert((a + b).last() == b.last());
        let va = visible_chars(a);
        let vb = vis_state(b.drop_last()).0;
        assert((va + vb).push(b.last()) =~= va + vb.push(b.last()));
    }
}

/// Truncation keeps exactly the first `max` visible characters of `s`, and
/// a cut line ends outside any escape sequence, so its colours end there.
pub proof fn law_truncate_keeps_visible_prefix(s: Seq<char>, max: nat)
    ensures
        visible_chars(truncated(s, max)) == visible_chars(s).take(
            if visible_count(s) <= max {
                visible_count(s) as int
            } else {
                max as int
            },
        ),
        visible_count(truncated(s, max)) == if visible_count(s) <= max {
            visible_count(s)
        } else {
            max
        },
        visible_count(s) > max ==> !vis_state(truncated(s, max)).1,
{
    if visible_count(s) <= max {
        assert(visible_chars(s).take(visible_count(s) as int) =~= visible_chars(s));
    } else {
        lemma_trunc_inv(s, max);
        let st = trunc_state(s, max);
        let body = seq!['[', '0'];
        assert(reset_seq() =~= seq![esc()] + body + seq!['m']);
        assert(st.out + reset_seq() =~= st.out + seq![esc()] + body + seq!['m']);
        lemma_vis_escape(st.out, body);
    }
}

// ── Executable operations ───────────────────────────────────────────────────

/// Number of characters of `s` that show on a terminal: ANSI sequences from
/// `ESC` to the next `m` do not count.
pub fn visible_len(s: &str) -> (n: usize)
    ensures
        n == visible_count(s@),
{
    let v = to_chars(s);
    vec_visible_len(&v)
}

/// `visible_len` over a character vector.
pub fn vec_visible_len(v: &Vec<char>) -> (n: usize)
    ensures
        n == visible_count(v@),
{
    let mut len: usize = 0;
    let mut in_escape = false;
    let mut i: usize = 0;
    while i < v.len()
        invariant
            i <= v.len(),
            len == vis_state(v@.take(i as int)).0.len(),
            in_escape == vis_state(v@.take(i as int)).1,
            len <= i,
        decreases v.len() - i,
    {
        proof {
            lemma_take_step(v@, i as int);
        }
        let ch = v[i];
        if ch == '\x1b' {
            in_escape = true;
        } else if in_escape && ch == 'm' {
            in_escape = false;
        } else if !in_escape {
            len = len + 1;
        }
        i = i + 1;
    }
    assert(v@.take(i as int) =~= v@);
    len
}

/// Width of the widest line, counting visible characters only.
pub fn ascii_width(lines: &Vec<String>) -> (w: usize)
    ensures
        w == max_visible(views(lines@)),
{
    let mut w: usize = 0;
    let mut i: usize = 0;
    while i < lines.len()
        invariant
            i <= lines.len(),
            w == max_visible(views(lines@.take(i as int))),
        decreases lines.len() - i,
    {
        proof {
            lemma_take_step(lines@, i as int);
            lemma_views_push(lines@.take(i as int), lines@[i as int]);
            assert(lines@.take(i + 1) =~= lines@.take(i as int).push(lines@[i as int]));
            assert(views(lines@.take(i + 1)).drop_last() =~= views(lines@.take(i as int)));
        }
        let l = visible_len(lines[i].as_str());
        if l > w {
            w = l;
        }
        i = i + 1;
    }
    assert(lines@.take(i as int) =~= lines@);
    w
}

/// Cuts `s` to at most `max` visible characters, keeping the ANSI sequences
/// that come before the cut; when it cuts, a colour reset is appended so
/// colours do not bleed into the next column.
pub fn truncate_to_visible(s: &str, max: usize) -> (r: String)
    ensures
        r@ == truncated(s@, max as nat),
{
    let v = to_chars(s);
    if vec_visible_len(&v) <= max {
        return crate::text::string_from(&v);
    }
    let mut out = String::new();
    let mut vis: usize = 0;
    let mut in_esc = false;
    let mut esc_buf = String::new();
    let mut stopped = false;
    let mut i: usize = 0;
    while i < v.len()
        invariant
            i <= v.len(),
            vis <= max,
            ({
                let st = trunc_state(v@.take(i as int), max as nat);
                &&& out@ == st.out
                &&& vis == st.vis
                &&& in_esc == st.in_esc
                &&& esc_buf@ == st.esc_buf
                &&& stopped == st.stopped
            }),
        decreases v.len() - i,
    {
        proof {
            lemma_take_step(v@, i as int);
        }
        let ch = v[i];
        if !stopped {
            if ch == '\x1b' {
                in_esc = true;
                esc_buf = String::new();
                push_char(&mut esc_buf, ch);
                assert(esc_buf@ =~= seq![ch]);
            } else if in_esc {
                push_char(&mut esc_buf, ch);
                if ch == 'm' {
                    in_esc = false;
                    if vis < max {
                        push_str(&mut out, esc_buf.as_str());
                    }
                }
            } else if vis >= max {
                stopped = true;
            } else {
                push_char(&mut out, ch);
                vis = vis + 1;
            }
        }
        i = i + 1;
    }
    assert(v@.take(i as int) =~= v@);
    push_str(&mut out, "\x1b[0m");
    proof {
        reveal_strlit("\x1b[0m");
        assert("\x1b[0m"@ =~= reset_seq());
    }
    out
}

/// The art lines to show: the file's content when it holds more than
/// whitespace, otherwise the built-in logo.
pub open spec fn chosen_art(content: Option<Seq<char>>) -> Seq<char> {
    match content {
        Some(c) => if trim(c).len() > 0 {
            c
        } else {
            DEFAULT_ASCII@
        },
        None => DEFAULT_ASCII@,
    }
}

/// The lines of the ASCII art given the selected file's content (`None`
/// when the file is missing or unreadable): a missing, unreadable or blank
/// file falls back to the built-in logo.
pub fn load_ascii(content: Option<&str>) -> (r: Vec<String>)
    ensures
        views(r@) == lines_seq(chosen_art(
            match content {
                Some(c) => Some(c@),
                None => None,
            },
        )),
{
    match content {
        Some(c) => {
            let cv = to_chars(c);
            let (lo, hi) = trim_bounds(&cv);
            if hi > lo {
                lines(c)
            } else {
                lines(DEFAULT_ASCII)
            }
        },
        None => lines(DEFAULT_ASCII),
    }
}

} // verus!
