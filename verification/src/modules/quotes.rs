//! The quotes module: a programming quote, wrapped at word boundaries and
//! signed by its author.

use vstd::prelude::*;
use crate::calendar::now_subsec_nanos;
use crate::modules::{ModuleKind, kind_name};
use crate::text::{
    byte_len, join_seq, lemma_join_push, lemma_views_push, lemma_words_nonempty, opt_str, owned,
    push_char, push_str, utf8_len, views, words, words_seq,
};

verus! {

/// Shows a quote.
pub struct QuotesModule;

/// Number of quotes.
pub const QUOTE_COUNT: usize = 15;

/// Column width the quote text is wrapped at.
pub const QUOTE_WIDTH: usize = 58;

/// Lines built from words so far: the finished lines and the line being
/// filled. A word joins the current line, after one space, when the line
/// then stays within `width` bytes; else it starts a new line.
pub open spec fn wrap_state(ws: Seq<Seq<char>>, width: nat) -> (Seq<Seq<char>>, Seq<char>)
    decreases ws.len(),
{
    if ws.len() == 0 {
        (Seq::empty(), Seq::empty())
    } else {
        let (done, cur) = wrap_state(ws.drop_last(), width);
        let w = ws.last();
        if cur.len() == 0 {
            (done, w)
        } else if utf8_len(cur) + 1 + utf8_len(w) <= width {
            (done, cur + " "@ + w)
        } else {
            (done.push(cur), w)
        }
    }
}

/// The lines `ws` wrap into at `width` bytes.
pub open spec fn wrap_seq(ws: Seq<Seq<char>>, width: nat) -> Seq<Seq<char>> {
    let (done, cur) = wrap_state(ws, width);
    if cur.len() > 0 {
        done.push(cur)
    } else {
        done
    }
}

/// Wraps the whitespace-separated words of `text` into lines of at most
/// `width` bytes; a longer word stands on a line of its own.
pub fn word_wrap(text: &str, width: usize) -> (r: Vec<String>)
    ensures
        views(r@) == wrap_seq(words_seq(text@), width as nat),
{
    let ws = words(text);
    let ghost wv = views(ws@);
    let mut done: Vec<String> = Vec::new();
    let mut cur = String::new();
    let mut i: usize = 0;
    while i < ws.len()
        invariant
            i <= ws.len(),
            wv == views(ws@),
            wv == words_seq(text@),
            views(done@) == wrap_state(wv.take(i as int), width as nat).0,
            cur@ == wrap_state(wv.take(i as int), width as nat).1,
        decreases ws.len() - i,
    {
        assert(wv.take(i + 1).drop_last() =~= wv.take(i as int));
        assert(wv.take(i + 1).last() == ws@[i as int]@);
        let w = ws[i].as_str();
        if cur.as_str().is_empty() {
            cur = owned(w);
        } else if byte_len(cur.as_str()) + 1 + byte_len(w) <= width as u128 {
            push_char(&mut cur, ' ');
            push_str(&mut cur, w);
            assert(cur@ =~= wrap_state(wv.take(i as int), width as nat).1 + " "@ + w@) by {
                reveal_strlit(" ");
            }
        } else {
            proof {
                lemma_views_push(done@, cur);
            }
            done.push(cur);
            cur = owned(w);
        }
        i = i + 1;
    }
    assert(wv.take(ws.len() as int) =~= wv);
    if !cur.as_str().is_empty() {
        proof {
            lemma_views_push(done@, cur);
        }
        done.push(cur);
    }
    done
}

/// What wrapping keeps while it runs: the current line is present once any
/// word is, the lines joined by spaces are the words joined by spaces, and a
/// line longer than the width is one of the words.
proof fn lemma_wrap_state(ws: Seq<Seq<char>>, width: nat)
    requires
        forall|i: int| 0 <= i < ws.len() ==> (#[trigger] ws[i]).len() > 0,
    ensures
        ws.len() == 0 ==> wrap_state(ws, width).0.len() == 0 && wrap_state(ws, width).1.len() == 0,
        ws.len() > 0 ==> wrap_state(ws, width).1.len() > 0,
        ws.len() > 0 ==> join_seq(wrap_state(ws, width).0.push(wrap_state(ws, width).1), " "@)
            == join_seq(ws, " "@),
        forall|k: int|
            0 <= k < wrap_state(ws, width).0.len() && utf8_len(#[trigger] wrap_state(ws, width).0[k])
                > width ==> ws.contains(wrap_state(ws, width).0[k]),
        utf8_len(wrap_state(ws, width).1) > width ==> ws.contains(wrap_state(ws, width).1),
    decreases ws.len(),
{
    if ws.len() > 0 {
        let prev = ws.drop_last();
        assert forall|i: int| 0 <= i < prev.len() implies (#[trigger] prev[i]).len() > 0 by {
            assert(prev[i] == ws[i]);
        }
        lemma_wrap_state(prev, width);
        let (done, cur) = wrap_state(prev, width);
        let w = ws.last();
        assert(ws.contains(w)) by {
            assert(ws[ws.len() - 1] == w);
        }
        assert forall|x: Seq<char>| prev.contains(x) implies ws.contains(x) by {
            let j = choose|j: int| 0 <= j < prev.len() && prev[j] == x;
            assert(ws[j] == x);
        }
        assert(ws =~= prev.push(w));
        if prev.len() == 0 {
            assert(ws.len() == 1);
            assert(join_seq(ws, " "@) == w);
            lemma_join_push(done, " "@, w);
        } else if cur.len() == 0 {
        } else if utf8_len(cur) + 1 + utf8_len(w) <= width {
            reveal_strlit(" ");
            assert(utf8_len(" "@.drop_last()) == 0);
            assert(utf8_len(" "@) == 1);
            crate::text::lemma_utf8_len_concat(cur, " "@);
            crate::text::lemma_utf8_len_concat(cur + " "@, w);
            lemma_join_push(done, " "@, cur);
            lemma_join_push(done, " "@, cur + " "@ + w);
            lemma_join_push(prev, " "@, w);
            assert(join_seq(done.push(cur + " "@ + w), " "@) =~= join_seq(done.push(cur), " "@) + " "@
                + w);
        } else {
            lemma_join_push(done.push(cur), " "@, w);
            lemma_join_push(prev, " "@, w);
            assert forall|k: int|
                0 <= k < done.push(cur).len() && utf8_len(#[trigger] done.push(cur)[k]) > width implies ws.contains(
                done.push(cur)[k],
            ) by {
                if k < done.len() {
                    assert(done.push(cur)[k] == done[k]);
                }
            }
        }
    }
}

/// Wrapping keeps the words: the wrapped lines joined by single spaces are
/// the text's words joined by single spaces.
pub proof fn law_wrap_keeps_words(text: Seq<char>, width: nat)
    ensures
        join_seq(wrap_seq(words_seq(text), width), " "@) == join_seq(words_seq(text), " "@),
{
    lemma_words_nonempty(text);
    lemma_wrap_state(words_seq(text), width);
}

/// Wrapping respects the width: every wrapped line fits in `width` bytes,
/// unless it is a single word that is longer on its own.
pub proof fn law_wrap_fits(text: Seq<char>, width: nat, i: int)
    requires
        0 <= i < wrap_seq(words_seq(text), width).len(),
    ensures
        utf8_len(wrap_seq(words_seq(text), width)[i]) <= width || words_seq(text).contains(
            wrap_seq(words_seq(text), width)[i],
        ),
{
    lemma_words_nonempty(text);
    lemma_wrap_state(words_seq(text), width);
    let (done, cur) = wrap_state(words_seq(text), width);
    if i < done.len() {
        assert(wrap_seq(words_seq(text), width)[i] == done[i]);
    }
}

/// The author of quote `i`.
pub open spec fn quote_author(i: int) -> Seq<char> {
    if i == 0 {
        "Linus Torvalds"@
    } else if i == 1 {
        "Ken Thompson"@
    } else if i == 2 {
        "Eric S. Raymond"@
    } else if i == 3 {
        "Rob Pike"@
    } else if i == 4 {
        "Donald Knuth"@
    } else if i == 5 {
        "Edsger Dijkstra"@
    } else if i == 6 {
        "Brian Kernighan"@
    } else if i == 7 {
        "Larry Wall"@
    } else if i == 8 {
        "Richard Stallman"@
    } else if i == 9 {
        "Alan Kay"@
    } else if i == 10 {
        "Dennis Ritchie"@
    } else if i == 11 {
        "Linus Torvalds"@
    } else if i == 12 {
        "Alan Turing"@
    } else if i == 13 {
        "C. E. Shannon"@
    } else {
        "Bjarne Stroustrup"@
    }
}

/// The words of quote `i`.
pub open spec fn quote_body(i: int) -> Seq<char> {
    if i == 0 {
        "Talk is cheap. Show me the code."@
    } else if i == 1 {
        "One of my most productive days was throwing away 1000 lines of code."@
    } else if i == 2 {
        "Every good work of software starts by scratching a developer's personal itch."@
    } else if i == 3 {
        "Data dominates. If you've chosen the right data structures and organized things well, the algorithms will almost always be self-evident."@
    } else if i == 4 {
        "Premature optimization is the root of all evil."@
    } else if i == 5 {
        "The question of whether computers can think is like the question of whether submarines can swim."@
    } else if i == 6 {
        "Debugging is twice as hard as writing the code in the first place. Therefore, if you write the code as cleverly as possible, you are, by definition, not smart enough to debug it."@
    } else if i == 7 {
        "The three chief virtues of a programmer are: Laziness, Impatience and Hubris."@
    } else if i == 8 {
        "Free software is a matter of liberty, not price. To understand the concept, you should think of 'free' as in 'free speech'."@
    } else if i == 9 {
        "The best way to predict the future is to invent it."@
    } else if i == 10 {
        "Unix is simple. It just takes a genius to understand its simplicity."@
    } else if i == 11 {
        "Software is like sex: it's better when it's free."@
    } else if i == 12 {
        "We can only see a short distance ahead, but we can see plenty there that needs to be done."@
    } else if i == 13 {
        "Information is the resolution of uncertainty."@
    } else {
        "C makes it easy to shoot yourself in the foot; C++ makes it harder, but when you do it blows your whole leg off."@
    }
}

/// Quote `i` as shown: the wrapped lines inside double quotes, then the
/// author on an indented line.
pub open spec fn quote_text(i: int) -> Seq<char> {
    "\""@ + join_seq(wrap_seq(words_seq(quote_body(i)), QUOTE_WIDTH as nat), "\n"@) + "\"\n  -- "@
        + quote_author(i)
}

/// The author and words of quote `i`.
pub fn quote_at(i: usize) -> (r: (&'static str, &'static str))
    requires
        i < QUOTE_COUNT,
    ensures
        r.0@ == quote_author(i as int),
        r.1@ == quote_body(i as int),
{
    match i {
        0 => ("Linus Torvalds", "Talk is cheap. Show me the code."),
        1 => ("Ken Thompson", "One of my most productive days was throwing away 1000 lines of code."),
        2 => (
            "Eric S. Raymond",
            "Every good work of software starts by scratching a developer's personal itch.",
        ),
        3 => (
            "Rob Pike",
            "Data dominates. If you've chosen the right data structures and organized things well, the algorithms will almost always be self-evident.",
        ),
        4 => ("Donald Knuth", "Premature optimization is the root of all evil."),
        5 => (
            "Edsger Dijkstra",
            "The question of whether computers can think is like the question of whether submarines can swim.",
        ),
        6 => (
            "Brian Kernighan",
            "Debugging is twice as hard as writing the code in the first place. Therefore, if you write the code as cleverly as possible, you are, by definition, not smart enough to debug it.",
        ),
        7 => (
            "Larry Wall",
            "The three chief virtues of a programmer are: Laziness, Impatience and Hubris.",
        ),
        8 => (
            "Richard Stallman",
            "Free software is a matter of liberty, not price. To understand the concept, you should think of 'free' as in 'free speech'.",
        ),
        9 => ("Alan Kay", "The best way to predict the future is to invent it."),
        10 => ("Dennis Ritchie", "Unix is simple. It just takes a genius to understand its simplicity."),
        11 => ("Linus Torvalds", "Software is like sex: it's better when it's free."),
        12 => (
            "Alan Turing",
            "We can only see a short distance ahead, but we can see plenty there that needs to be done.",
        ),
        13 => ("C. E. Shannon", "Information is the resolution of uncertainty."),
        _ => (
            "Bjarne Stroustrup",
            "C makes it easy to shoot yourself in the foot; C++ makes it harder, but when you do it blows your whole leg off.",
        ),
    }
}

/// The lines joined by newlines, inside double quotes.
fn quoted_lines(lines: &Vec<String>) -> (r: String)
    ensures
        r@ == "\""@ + join_seq(views(lines@), "\n"@) + "\""@,
{
    let mut out = String::new();
    push_char(&mut out, '"');
    proof {
        reveal_strlit("\"");
        assert(views(lines@).take(0) =~= Seq::<Seq<char>>::empty());
        assert(out@ =~= "\""@ + join_seq(views(lines@).take(0), "\n"@));
    }
    let mut i: usize = 0;
    while i < lines.len()
        invariant
            i <= lines.len(),
            out@ == "\""@ + join_seq(views(lines@).take(i as int), "\n"@),
        decreases lines.len() - i,
    {
        proof {
            reveal_strlit("\"");
            reveal_strlit("\n");
            assert(views(lines@).take(i + 1) =~= views(lines@).take(i as int).push(lines@[i as int]@));
            lemma_join_push(views(lines@).take(i as int), "\n"@, lines@[i as int]@);
        }
        if i > 0 {
            push_char(&mut out, '\n');
        }
        push_str(&mut out, lines[i].as_str());
        proof {
            let prev = join_seq(views(lines@).take(i as int), "\n"@);
            if i > 0 {
                assert(out@ =~= "\""@ + (prev + "\n"@ + lines@[i as int]@));
            } else {
                assert(out@ =~= "\""@ + lines@[i as int]@);
            }
        }
        i = i + 1;
    }
    assert(views(lines@).take(lines.len() as int) =~= views(lines@));
    push_char(&mut out, '"');
    proof {
        reveal_strlit("\"");
        assert(out@ =~= "\""@ + join_seq(views(lines@), "\n"@) + "\""@);
    }
    out
}

/// Quote `i` as shown.
pub fn quote_for(i: usize) -> (r: String)
    requires
        i < QUOTE_COUNT,
    ensures
        r@ == quote_text(i as int),
{
    let (author, body) = quote_at(i);
    let wrapped = word_wrap(body, QUOTE_WIDTH);
    let mut out = quoted_lines(&wrapped);
    push_str(&mut out, "\n  -- ");
    push_str(&mut out, author);
    proof {
        reveal_strlit("\"");
        reveal_strlit("\n  -- ");
        reveal_strlit("\"\n  -- ");
        assert(out@ =~= quote_text(i as int));
    }
    out
}

impl QuotesModule {
    /// The module's title.
    pub fn name(&self) -> (r: &'static str)
        ensures
            r == kind_name(ModuleKind::Quotes),
    {
        "Quote"
    }

    /// A quote picked by the sub-second nanoseconds of the clock.
    pub fn collect(&self) -> (r: Option<String>)
        ensures
            exists|i: int| 0 <= i < QUOTE_COUNT && opt_str(r) == Some(quote_text(i)),
    {
        let seed = now_subsec_nanos() as usize;
        let r = quote_for(seed % QUOTE_COUNT);
        assert(opt_str(Some(r)) == Some(quote_text((seed % QUOTE_COUNT) as int)));
        Some(r)
    }
}

} // verus!
