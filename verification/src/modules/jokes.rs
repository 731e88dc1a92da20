//! The jokes module: one programming joke, picked by the clock.

use vstd::prelude::*;
use crate::calendar::now_subsec_nanos;
use crate::modules::{ModuleKind, kind_name};
use crate::text::{concat3, opt_str};

verus! {

/// Shows a two-line joke.
pub struct JokesModule;

/// Number of jokes.
pub const JOKE_COUNT: usize = 12;

/// The setup of joke `i`.
pub open spec fn joke_setup(i: int) -> Seq<char> {
    if i == 0 {
        "Why do programmers prefer dark mode?"@
    } else if i == 1 {
        "Why did the developer go broke?"@
    } else if i == 2 {
        "How do you comfort a JavaScript bug?"@
    } else if i == 3 {
        "Why do Java developers wear glasses?"@
    } else if i == 4 {
        "A SQL query walks into a bar, walks up to two tables and asks..."@
    } else if i == 5 {
        "Why did the Linux admin cross the road?"@
    } else if i == 6 {
        "What's a computer's favorite snack?"@
    } else if i == 7 {
        "Why do programmers always mix up Christmas and Halloween?"@
    } else if i == 8 {
        "How many programmers does it take to change a light bulb?"@
    } else if i == 9 {
        "Why was the shell script nervous?"@
    } else if i == 10 {
        "What's the object-oriented way to become wealthy?"@
    } else {
        "Why did the programmer quit his job?"@
    }
}

/// The punchline of joke `i`.
pub open spec fn joke_punchline(i: int) -> Seq<char> {
    if i == 0 {
        "Because light attracts bugs."@
    } else if i == 1 {
        "Because he used up all his cache."@
    } else if i == 2 {
        "You console it."@
    } else if i == 3 {
        "Because they don't C#."@
    } else if i == 4 {
        "\"Can I join you?\""@
    } else if i == 5 {
        "To mount the other side."@
    } else if i == 6 {
        "Micro-chips."@
    } else if i == 7 {
        "Because Oct 31 == Dec 25."@
    } else if i == 8 {
        "None, that's a hardware problem."@
    } else if i == 9 {
        "It had too many forks."@
    } else if i == 10 {
        "Inheritance."@
    } else {
        "Because he didn't get arrays."@
    }
}

/// Joke `i` as shown: the setup, then the punchline on an indented line.
pub open spec fn joke_text(i: int) -> Seq<char> {
    joke_setup(i) + "\n  -> "@ + joke_punchline(i)
}

/// The setup and punchline of joke `i`.
pub fn joke_at(i: usize) -> (r: (&'static str, &'static str))
    requires
        i < JOKE_COUNT,
    ensures
        r.0@ == joke_setup(i as int),
        r.1@ == joke_punchline(i as int),
{
    match i {
        0 => ("Why do programmers prefer dark mode?", "Because light attracts bugs."),
        1 => ("Why did the developer go broke?", "Because he used up all his cache."),
        2 => ("How do you comfort a JavaScript bug?", "You console it."),
        3 => ("Why do Java developers wear glasses?", "Because they don't C#."),
        4 => (
            "A SQL query walks into a bar, walks up to two tables and asks...",
            "\"Can I join you?\"",
        ),
        5 => ("Why did the Linux admin cross the road?", "To mount the other side."),
        6 => ("What's a computer's favorite snack?", "Micro-chips."),
        7 => ("Why do programmers always mix up Christmas and Halloween?", "Because Oct 31 == Dec 25."),
        8 => (
            "How many programmers does it take to change a light bulb?",
            "None, that's a hardware problem.",
        ),
        9 => ("Why was the shell script nervous?", "It had too many forks."),
        10 => ("What's the object-oriented way to become wealthy?", "Inheritance."),
        _ => ("Why did the programmer quit his job?", "Because he didn't get arrays."),
    }
}

/// The joke picked by a seed: the seed divided by seven, modulo the number
/// of jokes.
pub fn joke_for_seed(seed: usize) -> (r: String)
    ensures
        r@ == joke_text(((seed / 7) % JOKE_COUNT) as int),
{
    let (setup, punchline) = joke_at((seed / 7) % JOKE_COUNT);
    concat3(setup, "\n  -> ", punchline)
}

impl JokesModule {
    /// The module's title.
    pub fn name(&self) -> (r: &'static str)
        ensures
            r == kind_name(ModuleKind::Jokes),
    {
        "Joke"
    }

    /// A joke picked by the sub-second nanoseconds of the clock.
    pub fn collect(&self) -> (r: Option<String>)
        ensures
            exists|i: int| 0 <= i < JOKE_COUNT && opt_str(r) == Some(joke_text(i)),
    {
        let seed = now_subsec_nanos() as usize;
        let r = joke_for_seed(seed);
        assert(opt_str(Some(r)) == Some(joke_text(((seed / 7) % JOKE_COUNT) as int)));
        Some(r)
    }
}

} // verus!
