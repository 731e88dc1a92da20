//! Character-level text utilities with specifications over `Seq<char>`.
//!
//! Every operation here mirrors a standard-library string operation that the
//! tool relies on (`trim`, `lines`, `split`, `split_whitespace`, byte length,
//! `starts_with`, ...), stated over the character sequence of the text.

use vstd::prelude::*;

verus! {

// ── Specifications ──────────────────────────────────────────────────────────

/// Unicode `White_Space` property (the set `char::is_whitespace` tests).
pub open spec fn is_ws(c: char) -> bool {
    let u = c as u32;
    ||| 9 <= u <= 13
    ||| u == 32
    ||| u == 0x85
    ||| u == 0xa0
    ||| u == 0x1680
    ||| 0x2000 <= u <= 0x200a
    ||| u == 0x2028
    ||| u == 0x2029
    ||| u == 0x202f
    ||| u == 0x205f
    ||| u == 0x3000
}

/// `s` with leading whitespace removed.
pub open spec fn trim_start(s: Seq<char>) -> Seq<char>
    decreases s.len(),
{
    if s.len() > 0 && is_ws(s[0]) {
        trim_start(s.drop_first())
    } else {
        s
    }
}

/// `s` with trailing whitespace removed.
pub open spec fn trim_end(s: Seq<char>) -> Seq<char>
    decreases s.len(),
{
    if s.len() > 0 && is_ws(s.last()) {
        trim_end(s.drop_last())
    } else {
        s
    }
}

/// `s` with whitespace removed at both ends (`str::trim`).
pub open spec fn trim(s: Seq<char>) -> Seq<char> {
    trim_end(trim_start(s))
}

/// `p` is a prefix of `s`.
pub open spec fn has_prefix(s: Seq<char>, p: Seq<char>) -> bool {
    p.len() <= s.len() && s.subrange(0, p.len() as int) == p
}

/// `p` is a suffix of `s`.
pub open spec fn has_suffix(s: Seq<char>, p: Seq<char>) -> bool {
    p.len() <= s.len() && s.subrange(s.len() - p.len(), s.len() as int) == p
}

/// `p` occurs in `s` starting at index `i`.
pub open spec fn occurs_at(s: Seq<char>, p: Seq<char>, i: int) -> bool {
    0 <= i && i + p.len() <= s.len() && s.subrange(i, i + p.len()) == p
}

/// `p` occurs somewhere in `s` (`str::contains`).
pub open spec fn contains_seq(s: Seq<char>, p: Seq<char>) -> bool {
    exists|i: int| occurs_at(s, p, i)
}

/// Number of bytes of the UTF-8 encoding of `c`.
pub open spec fn char_width(c: char) -> nat {
    let u = c as u32;
    if u < 0x80 {
        1
    } else if u < 0x800 {
        2
    } else if u < 0x10000 {
        3
    } else {
        4
    }
}

/// Number of bytes of the UTF-8 encoding of `s` (`str::len`).
pub open spec fn utf8_len(s: Seq<char>) -> nat
    decreases s.len(),
{
    if s.len() == 0 {
        0
    } else {
        utf8_len(s.drop_last()) + char_width(s.last())
    }
}

/// `n` spaces.
pub open spec fn spaces(n: nat) -> Seq<char> {
    Seq::new(n, |i: int| ' ')
}

/// `n` copies of `s` (`str::repeat`).
pub open spec fn repeat_seq(s: Seq<char>, n: nat) -> Seq<char>
    decreases n,
{
    if n == 0 {
        Seq::empty()
    } else {
        repeat_seq(s, (n - 1) as nat) + s
    }
}

/// `s` left-aligned in a field of `w` characters (`format!("{:w$}", s)`).
pub open spec fn pad_to(s: Seq<char>, w: nat) -> Seq<char> {
    if s.len() >= w {
        s
    } else {
        s + spaces((w - s.len()) as nat)
    }
}

/// State of a left-to-right split of `s` at `sep`: the finished pieces and
/// the piece under construction.
pub open spec fn split_state(s: Seq<char>, sep: char) -> (Seq<Seq<char>>, Seq<char>)
    decreases s.len(),
{
    if s.len() == 0 {
        (Seq::empty(), Seq::empty())
    } else {
        let (done, cur) = split_state(s.drop_last(), sep);
        if s.last() == sep {
            (done.push(cur), Seq::empty())
        } else {
            (done, cur.push(s.last()))
        }
    }
}

/// The pieces of `s` between occurrences of `sep` (`str::split(sep)`).
pub open spec fn split_seq(s: Seq<char>, sep: char) -> Seq<Seq<char>> {
    split_state(s, sep).0.push(split_state(s, sep).1)
}

/// `s` without one trailing carriage return.
pub open spec fn strip_cr(s: Seq<char>) -> Seq<char> {
    if s.len() > 0 && s.last() == '\r' {
        s.drop_last()
    } else {
        s
    }
}

/// State of a left-to-right scan of `s` into lines.
pub open spec fn lines_state(s: Seq<char>) -> (Seq<Seq<char>>, Seq<char>)
    decreases s.len(),
{
    if s.len() == 0 {
        (Seq::empty(), Seq::empty())
    } else {
        let (done, cur) = lines_state(s.drop_last());
        if s.last() == '\n' {
            (done.push(strip_cr(cur)), Seq::empty())
        } else {
            (done, cur.push(s.last()))
        }
    }
}

/// The lines of `s` (`str::lines`): split at `\n`, a `\r` right before the
/// `\n` dropped, and a final line without terminator kept if non-empty.
pub open spec fn lines_seq(s: Seq<char>) -> Seq<Seq<char>> {
    let (done, cur) = lines_state(s);
    if cur.len() > 0 {
        done.push(cur)
    } else {
        done
    }
}

/// State of a left-to-right scan of `s` into whitespace-separated words.
pub open spec fn words_state(s: Seq<char>) -> (Seq<Seq<char>>, Seq<char>)
    decreases s.len(),
{
    if s.len() == 0 {
        (Seq::empty(), Seq::empty())
    } else {
        let (done, cur) = words_state(s.drop_last());
        if is_ws(s.last()) {
            if cur.len() > 0 {
                (done.push(cur), Seq::empty())
            } else {
                (done, cur)
            }
        } else {
            (done, cur.push(s.last()))
        }
    }
}

/// The non-empty whitespace-separated words of `s` (`str::split_whitespace`).
pub open spec fn words_seq(s: Seq<char>) -> Seq<Seq<char>> {
    let (done, cur) = words_state(s);
    if cur.len() > 0 {
        done.push(cur)
    } else {
        done
    }
}

/// The concatenation of `pieces` with `sep` between neighbours (`join`).
pub open spec fn join_seq(pieces: Seq<Seq<char>>, sep: Seq<char>) -> Seq<char>
    decreases pieces.len(),
{
    if pieces.len() == 0 {
        Seq::empty()
    } else if pieces.len() == 1 {
        pieces[0]
    } else {
        join_seq(pieces.drop_last(), sep) + sep + pieces.last()
    }
}

/// The views of a vector of strings.
pub open spec fn views(v: Seq<String>) -> Seq<Seq<char>> {
    v.map_values(|s: String| s@)
}

// ── Lemmas ──────────────────────────────────────────────────────────────────

pub proof fn lemma_take_step<A>(s: Seq<A>, i: int)
    requires
        0 <= i < s.len(),
    ensures
        s.take(i + 1).drop_last() == s.take(i),
        s.take(i + 1).last() == s[i],
        s.take(i + 1).len() == i + 1,
{
    assert(s.take(i + 1).drop_last() =~= s.take(i));
}

pub proof fn lemma_trim_start_skip(s: Seq<char>, i: int)
    requires
        0 <= i <= s.len(),
        forall|k: int| 0 <= k < i ==> is_ws(#[trigger] s[k]),
        i == s.len() || !is_ws(s[i]),
    ensures
        trim_start(s) == s.subrange(i, s.len() as int),
    decreases i,
{
    if i == 0 {
        assert(s.subrange(0, s.len() as int) =~= s);
    } else {
        let t = s.drop_first();
        assert forall|k: int| 0 <= k < i - 1 implies is_ws(#[trigger] t[k]) by {
            assert(t[k] == s[k + 1]);
        }
        lemma_trim_start_skip(t, i - 1);
        assert(t.subrange(i - 1, t.len() as int) =~= s.subrange(i, s.len() as int));
    }
}

pub proof fn lemma_trim_end_cut(s: Seq<char>, j: int)
    requires
        0 <= j <= s.len(),
        forall|k: int| j <= k < s.len() ==> is_ws(#[trigger] s[k]),
        j == 0 || !is_ws(s[j - 1]),
    ensures
        trim_end(s) == s.subrange(0, j),
    decreases s.len() - j,
{
    if j == s.len() {
        assert(s.subrange(0, j) =~= s);
    } else {
        let t = s.drop_last();
        assert forall|k: int| j <= k < t.len() implies is_ws(#[trigger] t[k]) by {
            assert(t[k] == s[k]);
        }
        lemma_trim_end_cut(t, j);
        assert(t.subrange(0, j) =~= s.subrange(0, j));
    }
}

pub proof fn lemma_utf8_len_concat(a: Seq<char>, b: Seq<char>)
    ensures
        utf8_len(a + b) == utf8_len(a) + utf8_len(b),
    decreases b.len(),
{
    if b.len() == 0 {
        assert(a + b =~= a);
    } else {
        lemma_utf8_len_concat(a, b.drop_last());
        assert((a + b).drop_last() =~= a + b.drop_last());
    }
}

pub proof fn lemma_utf8_len_ascii(s: Seq<char>)
    requires
        forall|i: int| 0 <= i < s.len() ==> ((#[trigger] s[i]) as u32) < 0x80,
    ensures
        utf8_len(s) == s.len(),
    decreases s.len(),
{
    if s.len() > 0 {
        lemma_utf8_len_ascii(s.drop_last());
    }
}

pub proof fn lemma_utf8_len_ge_len(s: Seq<char>)
    ensures
        utf8_len(s) >= s.len(),
    decreases s.len(),
{
    if s.len() > 0 {
        lemma_utf8_len_ge_len(s.drop_last());
    }
}

pub proof fn lemma_join_push(pieces: Seq<Seq<char>>, sep: Seq<char>, p: Seq<char>)
    ensures
        join_seq(pieces.push(p), sep) == if pieces.len() == 0 {
            p
        } else {
            join_seq(pieces, sep) + sep + p
        },
{
    assert(pieces.push(p).drop_last() =~= pieces);
    if pieces.len() == 0 {
        assert(pieces.push(p)[0] == p);
    }
}

pub proof fn lemma_views_push(v: Seq<String>, s: String)
    ensures
        views(v.push(s)) == views(v).push(s@),
{
    assert(views(v.push(s)) =~= views(v).push(s@));
}

// ── Executable operations ───────────────────────────────────────────────────

/// Appends one character to a `String` (`String::push`).
#[verifier::external_body]
pub(crate) fn push_char(s: &mut String, c: char)
    ensures
        final(s)@ == old(s)@.push(c),
{
    s.push(c);
}

/// Appends a string slice to a `String`.
pub fn push_str(s: &mut String, t: &str)
    ensures
        final(s)@ == old(s)@ + t@,
{
    let v = to_chars(t);
    let ghost s0 = s@;
    let mut i: usize = 0;
    while i < v.len()
        invariant
            i <= v.len(),
            v@ == t@,
            s@ == s0 + v@.take(i as int),
        decreases v.len() - i,
    {
        proof {
            lemma_take_step(v@, i as int);
        }
        push_char(s, v[i]);
        i = i + 1;
        assert(s@ =~= s0 + v@.take(i as int));
    }
    assert(v@.take(i as int) =~= v@);
}

/// The characters of a string slice, in order.
pub fn to_chars(s: &str) -> (v: Vec<char>)
    ensures
        v@ == s@,
{
    broadcast use vstd::string::group_string_axioms;

    let mut v: Vec<char> = Vec::new();
    for c in it: s.chars()
        invariant
            v@ == it.seq().take(it.index()),
            it.seq() == s@,
    {
        v.push(c);
    }
    v
}

/// A `String` holding the characters `v[lo..hi]`.
pub fn string_of(v: &Vec<char>, lo: usize, hi: usize) -> (s: String)
    requires
        lo <= hi <= v.len(),
    ensures
        s@ == v@.subrange(lo as int, hi as int),
{
    let mut s = String::new();
    let mut i = lo;
    while i < hi
        invariant
            lo <= i <= hi <= v.len(),
            s@ == v@.subrange(lo as int, i as int),
        decreases hi - i,
    {
        push_char(&mut s, v[i]);
        i = i + 1;
        assert(s@ =~= v@.subrange(lo as int, i as int));
    }
    s
}

/// A `String` holding the characters of `v`.
pub fn string_from(v: &Vec<char>) -> (s: String)
    ensures
        s@ == v@,
{
    let s = string_of(v, 0, v.len());
    assert(v@.subrange(0, v@.len() as int) =~= v@);
    s
}

/// A copy of `s` as an owned `String`.
pub fn owned(s: &str) -> (r: String)
    ensures
        r@ == s@,
{
    let v = to_chars(s);
    string_from(&v)
}

/// `char::is_whitespace`.
pub fn is_whitespace(c: char) -> (b: bool)
    ensures
        b == is_ws(c),
{
    let u = c as u32;
    (9 <= u && u <= 13) || u == 32 || u == 0x85 || u == 0xa0 || u == 0x1680 || (0x2000 <= u && u
        <= 0x200a) || u == 0x2028 || u == 0x2029 || u == 0x202f || u == 0x205f || u == 0x3000
}

/// Equality of the character sequences of two slices.
pub fn str_eq(a: &str, b: &str) -> (r: bool)
    ensures
        r == (a@ == b@),
{
    let va = to_chars(a);
    let vb = to_chars(b);
    seq_eq(&va, &vb)
}

/// Equality of two character vectors.
pub fn seq_eq(va: &Vec<char>, vb: &Vec<char>) -> (r: bool)
    ensures
        r == (va@ == vb@),
{
    if va.len() != vb.len() {
        return false;
    }
    let mut i: usize = 0;
    while i < va.len()
        invariant
            i <= va.len() == vb.len(),
            forall|k: int| 0 <= k < i ==> va@[k] == vb@[k],
        decreases va.len() - i,
    {
        if va[i] != vb[i] {
            return false;
        }
        i = i + 1;
    }
    assert(va@ =~= vb@);
    true
}

/// `s` has prefix `p` (`str::starts_with`).
pub fn starts_with(s: &str, p: &str) -> (r: bool)
    ensures
        r == has_prefix(s@, p@),
{
    let vs = to_chars(s);
    let vp = to_chars(p);
    vec_starts_with(&vs, &vp)
}

/// `vs` has prefix `vp`.
pub fn vec_starts_with(vs: &Vec<char>, vp: &Vec<char>) -> (r: bool)
    ensures
        r == has_prefix(vs@, vp@),
{
    if vp.len() > vs.len() {
        return false;
    }
    let mut i: usize = 0;
    while i < vp.len()
        invariant
            i <= vp.len() <= vs.len(),
            forall|k: int| 0 <= k < i ==> vs@[k] == vp@[k],
        decreases vp.len() - i,
    {
        if vs[i] != vp[i] {
            assert(vs@.subrange(0, vp@.len() as int)[i as int] != vp@[i as int]);
            return false;
        }
        i = i + 1;
    }
    assert(vs@.subrange(0, vp@.len() as int) =~= vp@);
    true
}

/// `vp` occurs in `vs` at index `i`.
pub fn vec_occurs_at(vs: &Vec<char>, vp: &Vec<char>, i: usize) -> (r: bool)
    ensures
        r == occurs_at(vs@, vp@, i as int),
{
    if i > vs.len() || vp.len() > vs.len() - i {
        return false;
    }
    let mut k: usize = 0;
    while k < vp.len()
        invariant
            k <= vp.len(),
            i + vp.len() <= vs.len(),
            forall|j: int| 0 <= j < k ==> vs@[i + j] == vp@[j],
        decreases vp.len() - k,
    {
        if vs[i + k] != vp[k] {
            assert(vs@.subrange(i as int, i + vp@.len())[k as int] != vp@[k as int]);
            return false;
        }
        k = k + 1;
    }
    assert(vs@.subrange(i as int, i + vp@.len()) =~= vp@);
    true
}

/// Index of the first occurrence of `vp` in `vs` at or after `from`, if any.
pub fn vec_find_from(vs: &Vec<char>, vp: &Vec<char>, from: usize) -> (r: Option<usize>)
    ensures
        match r {
            Some(i) => from <= i && occurs_at(vs@, vp@, i as int) && forall|j: int|
                from <= j < i ==> !occurs_at(vs@, vp@, j),
            None => forall|j: int| from <= j ==> !occurs_at(vs@, vp@, j),
        },
{
    if from > vs.len() {
        return None;
    }
    let mut i = from;
    loop
        invariant
            from <= i <= vs.len(),
            forall|j: int| from <= j < i ==> !occurs_at(vs@, vp@, j),
        decreases vs.len() - i,
    {
        if vec_occurs_at(vs, vp, i) {
            return Some(i);
        }
        if i == vs.len() {
            return None;
        }
        i = i + 1;
    }
}

/// `p` occurs in `s` (`str::contains`).
pub fn contains(s: &str, p: &str) -> (r: bool)
    ensures
        r == contains_seq(s@, p@),
{
    let vs = to_chars(s);
    let vp = to_chars(p);
    match vec_find_from(&vs, &vp, 0) {
        Some(i) => true,
        None => {
            assert(!contains_seq(s@, p@)) by {
                if contains_seq(s@, p@) {
                    let j = choose|j: int| occurs_at(s@, p@, j);
                }
            }
            false
        },
    }
}

/// `s` with whitespace removed at both ends (`str::trim`).
pub fn trim_str(s: &str) -> (r: String)
    ensures
        r@ == trim(s@),
{
    let v = to_chars(s);
    let (lo, hi) = trim_bounds(&v);
    string_of(&v, lo, hi)
}

/// Bounds `lo..hi` of the trimmed part of `v`.
pub fn trim_bounds(v: &Vec<char>) -> (r: (usize, usize))
    ensures
        r.0 <= r.1 <= v.len(),
        v@.subrange(r.0 as int, r.1 as int) == trim(v@),
{
    let mut lo: usize = 0;
    while lo < v.len() && is_whitespace(v[lo])
        invariant
            lo <= v.len(),
            forall|k: int| 0 <= k < lo ==> is_ws(#[trigger] v@[k]),
        decreases v.len() - lo,
    {
        lo = lo + 1;
    }
    proof {
        lemma_trim_start_skip(v@, lo as int);
    }
    let ghost t = v@.subrange(lo as int, v@.len() as int);
    let mut hi: usize = v.len();
    while hi > lo && is_whitespace(v[hi - 1])
        invariant
            lo <= hi <= v.len(),
            t == v@.subrange(lo as int, v@.len() as int),
            forall|k: int| hi <= k < v.len() ==> is_ws(#[trigger] v@[k]),
        decreases hi,
    {
        hi = hi - 1;
    }
    proof {
        assert forall|k: int| hi - lo <= k < t.len() implies is_ws(#[trigger] t[k]) by {
            assert(t[k] == v@[k + lo]);
        }
        if hi > lo {
            assert(t[hi - lo - 1] == v@[hi - 1]);
        }
        lemma_trim_end_cut(t, hi - lo);
        assert(t.subrange(0, hi - lo) =~= v@.subrange(lo as int, hi as int));
    }
    (lo, hi)
}

/// Number of bytes of the UTF-8 encoding of `c` (`char::len_utf8`).
pub fn char_len_utf8(c: char) -> (n: usize)
    ensures
        n == char_width(c),
{
    let u = c as u32;
    if u < 0x80 {
        1
    } else if u < 0x800 {
        2
    } else if u < 0x10000 {
        3
    } else {
        4
    }
}

/// Number of bytes of the UTF-8 encoding of `s` (`str::len`).
pub fn byte_len(s: &str) -> (n: u128)
    ensures
        n == utf8_len(s@),
        n <= 4 * (usize::MAX as int),
{
    let v = to_chars(s);
    let l = v.len();
    assert(v@.len() == l);
    vec_byte_len(&v)
}

/// Number of bytes of the UTF-8 encoding of `v`.
pub fn vec_byte_len(v: &Vec<char>) -> (n: u128)
    ensures
        n == utf8_len(v@),
        n <= 4 * v@.len(),
{
    let mut n: u128 = 0;
    let mut i: usize = 0;
    while i < v.len()
        invariant
            i <= v.len(),
            n == utf8_len(v@.take(i as int)),
            n <= 4 * i,
        decreases v.len() - i,
    {
        proof {
            lemma_take_step(v@, i as int);
        }
        n = n + char_len_utf8(v[i]) as u128;
        i = i + 1;
    }
    assert(v@.take(i as int) =~= v@);
    n
}

/// The pieces of `s` between occurrences of `sep` (`str::split(sep)`).
pub fn split_char(s: &str, sep: char) -> (r: Vec<String>)
    ensures
        views(r@) == split_seq(s@, sep),
{
    let v = to_chars(s);
    let mut done: Vec<String> = Vec::new();
    let mut cur = String::new();
    let mut i: usize = 0;
    while i < v.len()
        invariant
            i <= v.len(),
            views(done@) == split_state(v@.take(i as int), sep).0,
            cur@ == split_state(v@.take(i as int), sep).1,
        decreases v.len() - i,
    {
        proof {
            lemma_take_step(v@, i as int);
        }
        if v[i] == sep {
            proof {
                lemma_views_push(done@, cur);
            }
            done.push(cur);
            cur = String::new();
        } else {
            push_char(&mut cur, v[i]);
        }
        i = i + 1;
    }
    assert(v@.take(i as int) =~= s@);
    proof {
        lemma_views_push(done@, cur);
    }
    done.push(cur);
    done
}

/// `s` without one trailing carriage return.
pub fn strip_cr_string(s: String) -> (r: String)
    ensures
        r@ == strip_cr(s@),
{
    let v = to_chars(s.as_str());
    if v.len() > 0 && v[v.len() - 1] == '\r' {
        let r = string_of(&v, 0, v.len() - 1);
        assert(v@.subrange(0, v.len() - 1) =~= v@.drop_last());
        r
    } else {
        s
    }
}

/// The lines of `s` (`str::lines`).
pub fn lines(s: &str) -> (r: Vec<String>)
    ensures
        views(r@) == lines_seq(s@),
{
    let v = to_chars(s);
    let mut done: Vec<String> = Vec::new();
    let mut cur = String::new();
    let mut i: usize = 0;
    while i < v.len()
        invariant
            i <= v.len(),
            views(done@) == lines_state(v@.take(i as int)).0,
            cur@ == lines_state(v@.take(i as int)).1,
        decreases v.len() - i,
    {
        proof {
            lemma_take_step(v@, i as int);
        }
        if v[i] == '\n' {
            let line = strip_cr_string(cur);
            proof {
                lemma_views_push(done@, line);
            }
            done.push(line);
            cur = String::new();
        } else {
            push_char(&mut cur, v[i]);
        }
        i = i + 1;
    }
    assert(v@.take(i as int) =~= s@);
    let cur_chars = to_chars(cur.as_str());
    if cur_chars.len() > 0 {
        proof {
            lemma_views_push(done@, cur);
        }
        done.push(cur);
    }
    done
}

/// The whitespace-separated words of `s` (`str::split_whitespace`).
pub fn words(s: &str) -> (r: Vec<String>)
    ensures
        views(r@) == words_seq(s@),
{
    let v = to_chars(s);
    let mut done: Vec<String> = Vec::new();
    let mut cur = String::new();
    let mut cur_len: usize = 0;
    let mut i: usize = 0;
    while i < v.len()
        invariant
            i <= v.len(),
            views(done@) == words_state(v@.take(i as int)).0,
            cur@ == words_state(v@.take(i as int)).1,
            cur_len == cur@.len(),
            cur_len <= i,
        decreases v.len() - i,
    {
        proof {
            lemma_take_step(v@, i as int);
        }
        if is_whitespace(v[i]) {
            if cur_len > 0 {
                proof {
                    lemma_views_push(done@, cur);
                }
                done.push(cur);
                cur = String::new();
                cur_len = 0;
            }
        } else {
            push_char(&mut cur, v[i]);
            cur_len = cur_len + 1;
        }
        i = i + 1;
    }
    assert(v@.take(i as int) =~= s@);
    if cur_len > 0 {
        proof {
            lemma_views_push(done@, cur);
        }
        done.push(cur);
    }
    done
}

/// `pieces` joined with `sep` between neighbours (`[String]::join`).
pub fn join(pieces: &Vec<String>, sep: &str) -> (r: String)
    ensures
        r@ == join_seq(views(pieces@), sep@),
{
    let mut r = String::new();
    let mut i: usize = 0;
    while i < pieces.len()
        invariant
            i <= pieces.len(),
            r@ == join_seq(views(pieces@.take(i as int)), sep@),
        decreases pieces.len() - i,
    {
        proof {
            lemma_take_step(pieces@, i as int);
            lemma_views_push(pieces@.take(i as int), pieces@[i as int]);
            lemma_join_push(views(pieces@.take(i as int)), sep@, pieces@[i as int]@);
            assert(pieces@.take(i + 1) =~= pieces@.take(i as int).push(pieces@[i as int]));
        }
        if i > 0 {
            push_str(&mut r, sep);
        }
        push_str(&mut r, pieces[i].as_str());
        i = i + 1;
    }
    assert(pieces@.take(i as int) =~= pieces@);
    r
}

/// `n` copies of `s` (`str::repeat`).
pub fn repeat_str(s: &str, n: u128) -> (r: String)
    ensures
        r@ == repeat_seq(s@, n as nat),
{
    let mut r = String::new();
    let mut i: u128 = 0;
    while i < n
        invariant
            i <= n,
            r@ == repeat_seq(s@, i as nat),
        decreases n - i,
    {
        push_str(&mut r, s);
        i = i + 1;
    }
    r
}

/// `n` spaces.
pub fn spaces_string(n: u128) -> (r: String)
    ensures
        r@ == spaces(n as nat),
{
    let mut r = String::new();
    let mut i: u128 = 0;
    while i < n
        invariant
            i <= n,
            r@ == spaces(i as nat),
        decreases n - i,
    {
        push_char(&mut r, ' ');
        i = i + 1;
        assert(r@ =~= spaces(i as nat));
    }
    r
}

/// `s` left-aligned in a field of `w` characters (`format!("{:w$}", s)`).
pub fn pad_right(s: &str, w: usize) -> (r: String)
    ensures
        r@ == pad_to(s@, w as nat),
{
    let v = to_chars(s);
    let mut r = string_from(&v);
    if v.len() < w {
        let sp = spaces_string((w - v.len()) as u128);
        push_str(&mut r, sp.as_str());
    }
    r
}

/// Byte offset `n` of `s` falls between two characters (or at an end).
pub open spec fn is_boundary(s: Seq<char>, n: int) -> bool {
    exists|k: int| 0 <= k <= s.len() && utf8_len(s.take(k)) == n
}

/// The characters of `s` in its first `n` bytes (`&s[..n]`), when `n` is a
/// character boundary.
pub open spec fn byte_prefix(s: Seq<char>, n: int) -> Seq<char> {
    s.take(choose|k: int| 0 <= k <= s.len() && utf8_len(s.take(k)) == n)
}

/// Longer prefixes take more bytes.
pub proof fn lemma_utf8_take_strict(s: Seq<char>, a: int, b: int)
    requires
        0 <= a < b <= s.len(),
    ensures
        utf8_len(s.take(a)) < utf8_len(s.take(b)),
    decreases b - a,
{
    lemma_take_step(s, b - 1);
    if a < b - 1 {
        lemma_utf8_take_strict(s, a, b - 1);
    }
}

/// The prefix of `v` with exactly `n` bytes, as a character count.
pub fn char_index_of_byte(v: &Vec<char>, n: u128) -> (r: Option<usize>)
    ensures
        match r {
            Some(k) => k <= v.len() && utf8_len(v@.take(k as int)) == n && byte_prefix(v@, n as int)
                == v@.take(k as int),
            None => !is_boundary(v@, n as int),
        },
{
    let mut bytes: u128 = 0;
    let mut i: usize = 0;
    while i < v.len() && bytes < n
        invariant
            i <= v.len(),
            bytes == utf8_len(v@.take(i as int)),
            bytes <= 4 * i,
            forall|k: int| 0 <= k < i ==> utf8_len(#[trigger] v@.take(k)) < n,
        decreases v.len() - i,
    {
        proof {
            lemma_take_step(v@, i as int);
        }
        bytes = bytes + char_len_utf8(v[i]) as u128;
        i = i + 1;
    }
    if bytes == n {
        proof {
            let k = choose|k: int| 0 <= k <= v@.len() && utf8_len(v@.take(k)) == n;
            if k < i {
                assert(utf8_len(v@.take(k)) < n);
            } else if k > i {
                lemma_utf8_take_strict(v@, i as int, k);
            }
        }
        Some(i)
    } else {
        proof {
            assert forall|k: int| 0 <= k <= v@.len() implies utf8_len(#[trigger] v@.take(k)) != n by {
                if k > i {
                    lemma_utf8_take_strict(v@, i as int, k);
                    if i == v.len() {
                    }
                }
            }
        }
        None
    }
}

// ── Further operations used by the information modules ─────────────────────

/// `s` with leading whitespace removed (`str::trim_start`).
pub fn trim_start_string(s: &str) -> (r: String)
    ensures
        r@ == trim_start(s@),
{
    let v = to_chars(s);
    let mut lo: usize = 0;
    while lo < v.len() && is_whitespace(v[lo])
        invariant
            lo <= v.len(),
            forall|k: int| 0 <= k < lo ==> is_ws(#[trigger] v@[k]),
        decreases v.len() - lo,
    {
        lo = lo + 1;
    }
    proof {
        lemma_trim_start_skip(v@, lo as int);
    }
    string_of(&v, lo, v.len())
}

/// `s` with every leading and trailing `c` removed.
pub open spec fn strip_char_seq(s: Seq<char>, c: char) -> Seq<char> {
    strip_end_char(strip_start_char(s, c), c)
}

/// `s` with every leading `c` removed.
pub open spec fn strip_start_char(s: Seq<char>, c: char) -> Seq<char>
    decreases s.len(),
{
    if s.len() > 0 && s[0] == c {
        strip_start_char(s.drop_first(), c)
    } else {
        s
    }
}

/// `s` with every trailing `c` removed.
pub open spec fn strip_end_char(s: Seq<char>, c: char) -> Seq<char>
    decreases s.len(),
{
    if s.len() > 0 && s.last() == c {
        strip_end_char(s.drop_last(), c)
    } else {
        s
    }
}

proof fn lemma_strip_start_skip(s: Seq<char>, c: char, i: int)
    requires
        0 <= i <= s.len(),
        forall|k: int| 0 <= k < i ==> #[trigger] s[k] == c,
        i == s.len() || s[i] != c,
    ensures
        strip_start_char(s, c) == s.subrange(i, s.len() as int),
    decreases i,
{
    if i == 0 {
        assert(s.subrange(0, s.len() as int) =~= s);
    } else {
        let t = s.drop_first();
        assert forall|k: int| 0 <= k < i - 1 implies #[trigger] t[k] == c by {
            assert(t[k] == s[k + 1]);
        }
        lemma_strip_start_skip(t, c, i - 1);
        assert(t.subrange(i - 1, t.len() as int) =~= s.subrange(i, s.len() as int));
    }
}

proof fn lemma_strip_end_cut(s: Seq<char>, c: char, j: int)
    requires
        0 <= j <= s.len(),
        forall|k: int| j <= k < s.len() ==> #[trigger] s[k] == c,
        j == 0 || s[j - 1] != c,
    ensures
        strip_end_char(s, c) == s.subrange(0, j),
    decreases s.len() - j,
{
    if j == s.len() {
        assert(s.subrange(0, j) =~= s);
    } else {
        let t = s.drop_last();
        assert forall|k: int| j <= k < t.len() implies #[trigger] t[k] == c by {
            assert(t[k] == s[k]);
        }
        lemma_strip_end_cut(t, c, j);
        assert(t.subrange(0, j) =~= s.subrange(0, j));
    }
}

/// `s` with every leading and trailing `c` removed (`str::trim_matches`).
pub fn trim_matches_char(s: &str, c: char) -> (r: String)
    ensures
        r@ == strip_char_seq(s@, c),
{
    let v = to_chars(s);
    let mut lo: usize = 0;
    while lo < v.len() && v[lo] == c
        invariant
            lo <= v.len(),
            forall|k: int| 0 <= k < lo ==> #[trigger] v@[k] == c,
        decreases v.len() - lo,
    {
        lo = lo + 1;
    }
    proof {
        lemma_strip_start_skip(v@, c, lo as int);
    }
    let ghost t = v@.subrange(lo as int, v@.len() as int);
    let mut hi: usize = v.len();
    while hi > lo && v[hi - 1] == c
        invariant
            lo <= hi <= v.len(),
            t == v@.subrange(lo as int, v@.len() as int),
            forall|k: int| hi <= k < v.len() ==> #[trigger] v@[k] == c,
        decreases hi,
    {
        hi = hi - 1;
    }
    proof {
        assert forall|k: int| hi - lo <= k < t.len() implies #[trigger] t[k] == c by {
            assert(t[k] == v@[k + lo]);
        }
        if hi > lo {
            assert(t[hi - lo - 1] == v@[hi - 1]);
        }
        lemma_strip_end_cut(t, c, hi - lo);
        assert(t.subrange(0, hi - lo) =~= v@.subrange(lo as int, hi as int));
    }
    string_of(&v, lo, hi)
}

/// `s` in ASCII lower case (`str::to_ascii_lowercase`).
pub open spec fn ascii_lowercase_seq(s: Seq<char>) -> Seq<char> {
    s.map_values(|c: char| if 'A' <= c <= 'Z' { ((c as u32) + 32) as char } else { c })
}

/// ASCII lower case of `s`.
pub fn to_ascii_lowercase(s: &str) -> (r: String)
    ensures
        r@ == ascii_lowercase_seq(s@),
{
    let v = to_chars(s);
    let mut r = String::new();
    let mut i: usize = 0;
    while i < v.len()
        invariant
            i <= v.len(),
            r@ == ascii_lowercase_seq(v@.take(i as int)),
        decreases v.len() - i,
    {
        let c = v[i];
        let lc = if 'A' <= c && c <= 'Z' {
            char_from_u32_checked((c as u32) + 32)
        } else {
            c
        };
        push_char(&mut r, lc);
        i = i + 1;
        assert(r@ =~= ascii_lowercase_seq(v@.take(i as int)));
    }
    assert(v@.take(i as int) =~= s@);
    r
}

/// The character `u` for a code point in the ASCII letter range.
fn char_from_u32_checked(u: u32) -> (c: char)
    requires
        0x61 <= u <= 0x7a,
    ensures
        c == u as char,
{
    let c = match u {
        0x61 => 'a',
        0x62 => 'b',
        0x63 => 'c',
        0x64 => 'd',
        0x65 => 'e',
        0x66 => 'f',
        0x67 => 'g',
        0x68 => 'h',
        0x69 => 'i',
        0x6a => 'j',
        0x6b => 'k',
        0x6c => 'l',
        0x6d => 'm',
        0x6e => 'n',
        0x6f => 'o',
        0x70 => 'p',
        0x71 => 'q',
        0x72 => 'r',
        0x73 => 's',
        0x74 => 't',
        0x75 => 'u',
        0x76 => 'v',
        0x77 => 'w',
        0x78 => 'x',
        0x79 => 'y',
        _ => 'z',
    };
    c
}

/// The pieces of a Unix path that name something: the `/`-separated pieces
/// without empty ones and without `.`.
pub open spec fn path_parts(ps: Seq<Seq<char>>) -> Seq<Seq<char>>
    decreases ps.len(),
{
    if ps.len() == 0 {
        Seq::empty()
    } else {
        let prev = path_parts(ps.drop_last());
        if ps.last().len() == 0 || ps.last() == "."@ {
            prev
        } else {
            prev.push(ps.last())
        }
    }
}

/// The last component of a Unix path (`Path::file_name`): none for an empty
/// path, the root, or a path ending in `..`.
pub open spec fn path_file_name(p: Seq<char>) -> Option<Seq<char>> {
    let parts = path_parts(split_seq(p, '/'));
    if parts.len() == 0 || parts.last() == ".."@ {
        None
    } else {
        Some(parts.last())
    }
}

/// The last component of a Unix path.
pub fn file_name(p: &str) -> (r: Option<String>)
    ensures
        match r {
            Some(n) => path_file_name(p@) == Some(n@),
            None => path_file_name(p@) is None,
        },
{
    let pieces = split_char(p, '/');
    let mut parts: Vec<String> = Vec::new();
    let mut i: usize = 0;
    while i < pieces.len()
        invariant
            i <= pieces.len(),
            views(parts@) == path_parts(views(pieces@).take(i as int)),
        decreases pieces.len() - i,
    {
        proof {
            lemma_take_step(views(pieces@), i as int);
        }
        let piece = pieces[i].as_str();
        let pv = to_chars(piece);
        if !(pv.len() == 0 || str_eq(piece, ".")) {
            proof {
                lemma_views_push(parts@, pieces@[i as int]);
            }
            parts.push(pieces[i].clone());
        }
        i = i + 1;
    }
    assert(views(pieces@).take(i as int) =~= views(pieces@));
    let n = parts.len();
    if n == 0 {
        return None;
    }
    if str_eq(parts[n - 1].as_str(), "..") {
        return None;
    }
    assert(views(parts@).last() == parts@[n - 1]@);
    Some(parts[n - 1].clone())
}

/// `s` holds character `c`.
pub fn has_char(s: &str, c: char) -> (b: bool)
    ensures
        b == s@.contains(c),
{
    let v = to_chars(s);
    let mut i: usize = 0;
    while i < v.len()
        invariant
            i <= v.len(),
            v@ == s@,
            forall|j: int| 0 <= j < i ==> v@[j] != c,
        decreases v.len() - i,
    {
        if v[i] == c {
            return true;
        }
        i = i + 1;
    }
    false
}

/// The trimmed text when it is not empty.
pub open spec fn nonempty_trimmed(s: Seq<char>) -> Option<Seq<char>> {
    if trim(s).len() > 0 {
        Some(trim(s))
    } else {
        None
    }
}

/// The trimmed text when it is not empty.
pub fn trimmed_nonempty(s: &str) -> (r: Option<String>)
    ensures
        match r {
            Some(t) => nonempty_trimmed(s@) == Some(t@),
            None => nonempty_trimmed(s@) is None,
        },
{
    let t = trim_str(s);
    let tv = to_chars(t.as_str());
    if tv.len() > 0 {
        Some(t)
    } else {
        None
    }
}

/// The view of an optional string.
pub open spec fn opt_str(o: Option<String>) -> Option<Seq<char>> {
    match o {
        Some(s) => Some(s@),
        None => None,
    }
}

/// The view of an optional string slice.
pub open spec fn opt_slice(o: Option<&str>) -> Option<Seq<char>> {
    match o {
        Some(s) => Some(s@),
        None => None,
    }
}

/// Concatenation of three strings.
pub fn concat3(a: &str, b: &str, c: &str) -> (r: String)
    ensures
        r@ == a@ + b@ + c@,
{
    let mut r = owned(a);
    push_str(&mut r, b);
    push_str(&mut r, c);
    r
}

/// The first present value of `s` from index `i` on.
pub open spec fn first_some<T>(s: Seq<Option<T>>, i: int) -> Option<T>
    decreases s.len() - i,
{
    if i < 0 || i >= s.len() {
        None
    } else if s[i] is Some {
        s[i]
    } else {
        first_some(s, i + 1)
    }
}

/// `s` with every leading copy of `p` removed (`str::trim_start_matches`).
pub open spec fn strip_all_prefix(s: Seq<char>, p: Seq<char>) -> Seq<char>
    decreases s.len(),
{
    if p.len() > 0 && has_prefix(s, p) {
        strip_all_prefix(s.skip(p.len() as int), p)
    } else {
        s
    }
}

/// `s` with every leading copy of `p` removed.
pub fn trim_start_matches_str(s: &str, p: &str) -> (r: String)
    ensures
        r@ == strip_all_prefix(s@, p@),
{
    let v = to_chars(s);
    let pv = to_chars(p);
    let mut i: usize = 0;
    assert(v@.skip(0) =~= v@);
    while pv.len() > 0 && i <= v.len() && vec_occurs_at(&v, &pv, i)
        invariant
            i <= v.len(),
            strip_all_prefix(v@, pv@) == strip_all_prefix(v@.skip(i as int), pv@),
        decreases v.len() - i,
    {
        let ghost t = v@.skip(i as int);
        assert(t.subrange(0, pv@.len() as int) =~= v@.subrange(i as int, i + pv@.len()));
        assert(t.skip(pv@.len() as int) =~= v@.skip(i + pv@.len()));
        i = i + pv.len();
    }
    proof {
        let t = v@.skip(i as int);
        if pv@.len() > 0 && has_prefix(t, pv@) {
            assert(t.subrange(0, pv@.len() as int) =~= v@.subrange(i as int, i + pv@.len()));
        }
    }
    let r = string_of(&v, i, v.len());
    assert(v@.subrange(i as int, v@.len() as int) =~= v@.skip(i as int));
    r
}

/// Name/value pairs viewed as character sequences.
pub open spec fn pair_views(p: Seq<(String, String)>) -> Seq<(Seq<char>, Seq<char>)> {
    p.map_values(|e: (String, String)| (e.0@, e.1@))
}

/// Pushing a pair pushes its views.
pub proof fn lemma_pair_views_push(p: Seq<(String, String)>, e: (String, String))
    ensures
        pair_views(p.push(e)) == pair_views(p).push((e.0@, e.1@)),
{
    assert(pair_views(p.push(e)) =~= pair_views(p).push((e.0@, e.1@)));
}

/// The present values of `s`, in order.
pub open spec fn somes<T>(s: Seq<Option<T>>) -> Seq<T>
    decreases s.len(),
{
    if s.len() == 0 {
        Seq::empty()
    } else {
        let p = somes(s.drop_last());
        match s.last() {
            Some(x) => p.push(x),
            None => p,
        }
    }
}

/// The first index at or after `i` where `p` occurs in `s`.
pub open spec fn find_from(s: Seq<char>, p: Seq<char>, i: int) -> Option<int>
    decreases s.len() + 1 - i,
{
    if i < 0 || i > s.len() {
        None
    } else if occurs_at(s, p, i) {
        Some(i)
    } else {
        find_from(s, p, i + 1)
    }
}

/// The text before the first `p` and the text after it (`str::split_once`).
pub open spec fn split_once_seq(s: Seq<char>, p: Seq<char>) -> Option<(Seq<char>, Seq<char>)> {
    match find_from(s, p, 0) {
        Some(k) => Some((s.take(k), s.skip(k + p.len()))),
        None => None,
    }
}

/// The text before the first `p`, or all of `s` (the first piece of
/// `str::split`).
pub open spec fn before_first(s: Seq<char>, p: Seq<char>) -> Seq<char> {
    match find_from(s, p, 0) {
        Some(k) => s.take(k),
        None => s,
    }
}

/// `find_from` is the first occurrence at or after `i`.
pub proof fn lemma_find_from(s: Seq<char>, p: Seq<char>, i: int, r: Option<int>)
    requires
        0 <= i,
        match r {
            Some(k) => i <= k && occurs_at(s, p, k) && forall|j: int| i <= j < k ==> !occurs_at(s, p, j),
            None => forall|j: int| i <= j ==> !occurs_at(s, p, j),
        },
    ensures
        find_from(s, p, i) == r,
    decreases s.len() + 1 - i,
{
    if i > s.len() {
        if let Some(k) = r {
            assert(occurs_at(s, p, k));
        }
    } else if occurs_at(s, p, i) {
    } else {
        lemma_find_from(s, p, i + 1, r);
    }
}

/// The first occurrence of `p` in `s`, as a character index.
pub fn find_str(vs: &Vec<char>, vp: &Vec<char>) -> (r: Option<usize>)
    ensures
        match r {
            Some(k) => find_from(vs@, vp@, 0) == Some(k as int) && occurs_at(vs@, vp@, k as int),
            None => find_from(vs@, vp@, 0) is None,
        },
{
    let r = vec_find_from(vs, vp, 0);
    proof {
        match r {
            Some(k) => lemma_find_from(vs@, vp@, 0, Some(k as int)),
            None => lemma_find_from(vs@, vp@, 0, None),
        }
    }
    r
}

/// `str::split_once`.
pub fn split_once_str(s: &str, p: &str) -> (r: Option<(String, String)>)
    ensures
        match r {
            Some(pair) => split_once_seq(s@, p@) == Some((pair.0@, pair.1@)),
            None => split_once_seq(s@, p@) is None,
        },
{
    let vs = to_chars(s);
    let vp = to_chars(p);
    match find_str(&vs, &vp) {
        Some(k) => {
            assert(k + vp@.len() <= vs@.len());
            assert(k + vp.len() <= vs.len());
            let a = string_of(&vs, 0, k);
            let b = string_of(&vs, k + vp.len(), vs.len());
            assert(vs@.subrange(0, k as int) =~= vs@.take(k as int));
            assert(vs@.subrange(k + vp@.len(), vs@.len() as int) =~= vs@.skip(k + vp@.len()));
            Some((a, b))
        },
        None => None,
    }
}

/// The text before the first `p`, or all of `s`.
pub fn before_first_str(s: &str, p: &str) -> (r: String)
    ensures
        r@ == before_first(s@, p@),
{
    let vs = to_chars(s);
    let vp = to_chars(p);
    match find_str(&vs, &vp) {
        Some(k) => {
            assert(vs@.subrange(0, k as int) =~= vs@.take(k as int));
            string_of(&vs, 0, k)
        },
        None => string_from(&vs),
    }
}

/// Pushing onto a list of optional values.
pub proof fn lemma_somes_push<T>(s: Seq<Option<T>>, x: Option<T>)
    ensures
        somes(s.push(x)) == match x {
            Some(v) => somes(s).push(v),
            None => somes(s),
        },
{
    assert(s.push(x).drop_last() =~= s);
}

/// A text holding `sep` splits into at least two pieces at it.
pub proof fn lemma_split_len_contains(s: Seq<char>, sep: char, k: int)
    requires
        0 <= k < s.len(),
        s[k] == sep,
    ensures
        split_seq(s, sep).len() > 1,
        split_state(s, sep).0.len() >= 1,
    decreases s.len(),
{
    if k < s.len() - 1 {
        lemma_split_len_contains(s.drop_last(), sep, k);
    }
}

/// The words of `s` are never empty.
pub proof fn lemma_words_nonempty(s: Seq<char>)
    ensures
        forall|i: int| 0 <= i < words_state(s).0.len() ==> (#[trigger] words_state(s).0[i]).len() > 0,
        forall|i: int| 0 <= i < words_seq(s).len() ==> (#[trigger] words_seq(s)[i]).len() > 0,
    decreases s.len(),
{
    if s.len() > 0 {
        lemma_words_nonempty(s.drop_last());
        let (done, cur) = words_state(s.drop_last());
        assert forall|i: int| 0 <= i < words_state(s).0.len() implies (
        #[trigger] words_state(s).0[i]).len() > 0 by {
            if i < done.len() {
                assert(words_state(s).0[i] == done[i]);
            }
        }
    }
    let (d, c) = words_state(s);
    assert forall|i: int| 0 <= i < words_seq(s).len() implies (#[trigger] words_seq(s)[i]).len()
        > 0 by {
        if i < d.len() {
            assert(words_seq(s)[i] == d[i]);
        }
    }
}

/// `a` sorts before `b` or equals it: lexicographic order by code point,
/// which is the byte order of their UTF-8 encodings (the order of `str`).
pub open spec fn text_le(a: Seq<char>, b: Seq<char>) -> bool
    decreases a.len(),
{
    if a.len() == 0 {
        true
    } else if b.len() == 0 {
        false
    } else if a[0] != b[0] {
        a[0] < b[0]
    } else {
        text_le(a.drop_first(), b.drop_first())
    }
}

/// The text order is total.
pub proof fn lemma_text_le_total(a: Seq<char>, b: Seq<char>)
    ensures
        text_le(a, b) || text_le(b, a),
    decreases a.len(),
{
    if a.len() > 0 && b.len() > 0 {
        if a[0] == b[0] {
            lemma_text_le_total(a.drop_first(), b.drop_first());
        }
    }
}

/// The text order is transitive.
pub proof fn lemma_text_le_trans(a: Seq<char>, b: Seq<char>, c: Seq<char>)
    requires
        text_le(a, b),
        text_le(b, c),
    ensures
        text_le(a, c),
    decreases a.len(),
{
    if a.len() > 0 && b.len() > 0 && c.len() > 0 && a[0] == b[0] && b[0] == c[0] {
        lemma_text_le_trans(a.drop_first(), b.drop_first(), c.drop_first());
    }
}

/// Texts ordered both ways are equal.
pub proof fn lemma_text_le_antisym(a: Seq<char>, b: Seq<char>)
    requires
        text_le(a, b),
        text_le(b, a),
    ensures
        a == b,
    decreases a.len(),
{
    if a.len() > 0 && b.len() > 0 {
        lemma_text_le_antisym(a.drop_first(), b.drop_first());
        assert(a =~= seq![a[0]] + a.drop_first());
        assert(b =~= seq![b[0]] + b.drop_first());
    }
}

/// Whether `a` sorts before `b` or equals it.
pub fn text_le_str(a: &str, b: &str) -> (r: bool)
    ensures
        r == text_le(a@, b@),
{
    let va = to_chars(a);
    let vb = to_chars(b);
    let mut i: usize = 0;
    proof {
        assert(va@.skip(0) =~= va@);
        assert(vb@.skip(0) =~= vb@);
    }
    while i < va.len() && i < vb.len() && va[i] == vb[i]
        invariant
            i <= va.len(),
            i <= vb.len(),
            text_le(va@, vb@) == text_le(va@.skip(i as int), vb@.skip(i as int)),
        decreases va.len() - i,
    {
        proof {
            let sa = va@.skip(i as int);
            let sb = vb@.skip(i as int);
            assert(sa.drop_first() =~= va@.skip(i + 1));
            assert(sb.drop_first() =~= vb@.skip(i + 1));
        }
        i = i + 1;
    }
    if i == va.len() {
        true
    } else if i == vb.len() {
        false
    } else {
        va[i] < vb[i]
    }
}

/// Whether `s` ends with `p`.
pub fn ends_with(s: &str, p: &str) -> (r: bool)
    ensures
        r == has_suffix(s@, p@),
{
    let vs = to_chars(s);
    let vp = to_chars(p);
    if vp.len() > vs.len() {
        return false;
    }
    let r = vec_occurs_at(&vs, &vp, vs.len() - vp.len());
    proof {
        assert(occurs_at(vs@, vp@, vs@.len() - vp@.len()) == has_suffix(vs@, vp@));
    }
    r
}

} // verus!
