//! Birthday and event greetings: whether today is a greeting day, the
//! animated birthday cake, and the event greeting screen.

use vstd::prelude::*;
use crate::calendar::{format_month_day, is_date, month_day_text, today_ymd};
use crate::config::{GreetingEvent, VaminfoConfig};
use crate::renderer::{color_spec, SegV};
use crate::style::{parse_color, seg, seg_lines_views, seg_views, to_uppercase, uppercase, plain, all_ascii, ColorName, Paint, Segment};
use crate::text::{byte_prefix, char_index_of_byte, is_boundary, vec_byte_len, lemma_take_step, owned, pad_to, push_str, repeat_seq, repeat_str, seq_eq, spaces, spaces_string, string_of, to_chars, trim, trim_str, utf8_len, byte_len};

verus! {

// ── Greeting days ───────────────────────────────────────────────────────────

/// Whether the configured birthday is month `m`, day `d`: greetings on, a
/// birthday set, and its trimmed text equal to `"MM-DD"`.
pub open spec fn birthday_on(enabled: bool, birthday: Seq<char>, m: nat, d: nat) -> bool {
    enabled && trim(birthday).len() > 0 && trim(birthday) == month_day_text(m, d)
}

/// Whether the configured birthday is month `m`, day `d`.
pub fn is_birthday_on(cfg: &VaminfoConfig, m: u32, d: u32) -> (b: bool)
    ensures
        b == birthday_on(cfg.greetings.enabled, cfg.greetings.birthday@, m as nat, d as nat),
{
    if !cfg.greetings.enabled {
        return false;
    }
    let t = trim_str(cfg.greetings.birthday.as_str());
    let tv = to_chars(t.as_str());
    if tv.len() == 0 {
        return false;
    }
    let today = format_month_day(m, d);
    let dv = to_chars(today.as_str());
    seq_eq(&tv, &dv)
}

/// Whether today (by the system clock) is the configured birthday.
pub fn is_birthday_today(cfg: &VaminfoConfig) -> (b: bool)
    ensures
        exists|y: int, m: int, d: int|
            is_date(y, m, d) && b == birthday_on(
                cfg.greetings.enabled,
                cfg.greetings.birthday@,
                m as nat,
                d as nat,
            ),
{
    let (y, m, d) = today_ymd();
    let b = is_birthday_on(cfg, m, d);
    assert(is_date(y as int, m as int, d as int));
    b
}

/// The events whose trimmed date is `"MM-DD"` for month `m`, day `d`, in
/// their configured order; none when greetings are off.
pub open spec fn events_on_spec(enabled: bool, events: Seq<GreetingEvent>, m: nat, d: nat) -> Seq<GreetingEvent>
    decreases events.len(),
{
    if !enabled || events.len() == 0 {
        Seq::empty()
    } else {
        let prev = events_on_spec(enabled, events.drop_last(), m, d);
        if trim(events.last().date@) == month_day_text(m, d) {
            prev.push(events.last())
        } else {
            prev
        }
    }
}

/// With greetings switched off no event is greeted on any day; with them
/// on, the events greeted are events of the configuration, each set for
/// that day, and no more of them than there are events.
pub proof fn law_events_on_day(enabled: bool, events: Seq<GreetingEvent>, m: nat, d: nat)
    ensures
        !enabled ==> events_on_spec(enabled, events, m, d).len() == 0,
        events_on_spec(enabled, events, m, d).len() <= events.len(),
        forall|i: int|
            0 <= i < events_on_spec(enabled, events, m, d).len() ==> {
                let e = #[trigger] events_on_spec(enabled, events, m, d)[i];
                &&& events.contains(e)
                &&& trim(e.date@) == month_day_text(m, d)
            },
    decreases events.len(),
{
    if enabled && events.len() > 0 {
        law_events_on_day(enabled, events.drop_last(), m, d);
        let prev = events_on_spec(enabled, events.drop_last(), m, d);
        assert forall|i: int| 0 <= i < prev.len() implies events.contains(#[trigger] prev[i]) by {
            let j = choose|j: int| 0 <= j < events.drop_last().len() && events.drop_last()[j] == prev[i];
            assert(events[j] == prev[i]);
        }
        assert(events[events.len() - 1] == events.last());
    }
}

/// The events set for month `m`, day `d`.
pub fn events_on(cfg: &VaminfoConfig, m: u32, d: u32) -> (r: Vec<GreetingEvent>)
    ensures
        r@.len() == events_on_spec(cfg.greetings.enabled, cfg.greetings.events@, m as nat, d as nat).len(),
        forall|i: int|
            0 <= i < r@.len() ==> {
                let e = events_on_spec(cfg.greetings.enabled, cfg.greetings.events@, m as nat, d as nat)[i];
                &&& (#[trigger] r@[i]).date@ == e.date@
                &&& r@[i].name@ == e.name@
                &&& r@[i].message@ == e.message@
            },
{
    let mut r: Vec<GreetingEvent> = Vec::new();
    if !cfg.greetings.enabled {
        return r;
    }
    let today = format_month_day(m, d);
    let dv = to_chars(today.as_str());
    let events = &cfg.greetings.events;
    let mut i: usize = 0;
    while i < events.len()
        invariant
            i <= events.len(),
            cfg.greetings.enabled,
            events == &cfg.greetings.events,
            dv@ == month_day_text(m as nat, d as nat),
            r@.len() == events_on_spec(true, events@.take(i as int), m as nat, d as nat).len(),
            forall|j: int|
                0 <= j < r@.len() ==> {
                    let e = events_on_spec(true, events@.take(i as int), m as nat, d as nat)[j];
                    &&& (#[trigger] r@[j]).date@ == e.date@
                    &&& r@[j].name@ == e.name@
                    &&& r@[j].message@ == e.message@
                },
        decreases events.len() - i,
    {
        proof {
            lemma_take_step(events@, i as int);
        }
        let t = trim_str(events[i].date.as_str());
        let tv = to_chars(t.as_str());
        if seq_eq(&tv, &dv) {
            let e = GreetingEvent {
                date: events[i].date.clone(),
                name: events[i].name.clone(),
                message: events[i].message.clone(),
            };
            r.push(e);
        }
        i = i + 1;
    }
    assert(events@.take(i as int) =~= events@);
    r
}

/// The events set for today (by the system clock).
pub fn todays_events(cfg: &VaminfoConfig) -> (r: Vec<GreetingEvent>)
    ensures
        exists|y: int, m: int, d: int|
            #![trigger is_date(y, m, d)]
            is_date(y, m, d) && r@.len() == events_on_spec(
                cfg.greetings.enabled,
                cfg.greetings.events@,
                m as nat,
                d as nat,
            ).len() && forall|i: int|
                0 <= i < r@.len() ==> {
                    let e = events_on_spec(cfg.greetings.enabled, cfg.greetings.events@, m as nat, d as nat)[i];
                    &&& (#[trigger] r@[i]).date@ == e.date@
                    &&& r@[i].name@ == e.name@
                    &&& r@[i].message@ == e.message@
                },
{
    let (y, m, d) = today_ymd();
    let r = events_on(cfg, m, d);
    assert(is_date(y as int, m as int, d as int));
    r
}

// ── Birthday cake ───────────────────────────────────────────────────────────

/// A cake line fitted to the cake width (`pad`): its first 31 bytes when it
/// has at least 31, else padded with spaces to 31 characters.
pub open spec fn cake_pad(s: Seq<char>) -> Seq<char> {
    if utf8_len(s) >= 31 {
        byte_prefix(s, 31)
    } else {
        pad_to(s, 31)
    }
}

/// Fits a cake line to the cake width. A line of at least 31 bytes is cut
/// at byte 31, which must fall between two characters.
pub fn pad(s: &str) -> (r: String)
    requires
        utf8_len(s@) >= 31 ==> is_boundary(s@, 31),
    ensures
        r@ == cake_pad(s@),
{
    let v = to_chars(s);
    if vec_byte_len(&v) >= 31 {
        match char_index_of_byte(&v, 31) {
            Some(k) => string_of(&v, 0, k),
            None => String::new(),
        }
    } else {
        crate::text::pad_right(s, 31)
    }
}

/// An ASCII line has one byte per character, so byte 31 of a line that
/// long falls between two characters.
proof fn lemma_ascii_cut(s: Seq<char>)
    requires
        all_ascii(s),
    ensures
        utf8_len(s) == s.len(),
        utf8_len(s) >= 31 ==> is_boundary(s, 31),
{
    crate::text::lemma_utf8_len_ascii(s);
    if s.len() >= 31 {
        crate::text::lemma_utf8_len_ascii(s.take(31));
        assert(utf8_len(s.take(31)) == 31);
    }
}

/// Sparkle row for even frames.
pub open spec fn sparkle_even() -> Seq<char> {
    "  * . * . * . * . * . * . * . * . *"@
}

/// Sparkle row for odd frames.
pub open spec fn sparkle_odd() -> Seq<char> {
    "  . * . * . * . * . * . * . * . * ."@
}

/// Row `i` of the static cake body.
pub open spec fn cake_body(i: int) -> Seq<char> {
    if i == 0 {
        " ___|_____|_____|_____|_____|_"@
    } else if i == 1 {
        " |  ~  ~  ~  ~  ~  ~  ~  ~ |"@
    } else if i == 2 {
        " |  ,-.   ,-.   ,-.   ,-.  |"@
    } else if i == 3 {
        " | ( o ) ( o ) ( o ) ( o ) |"@
    } else if i == 4 {
        " |  `-'   `-'   `-'   `-'  |"@
    } else if i == 5 {
        " |___________________________| "@
    } else if i == 6 {
        " |                           |"@
    } else if i == 7 {
        " |   H A P P Y               |"@
    } else if i == 8 {
        " |   B I R T H D A Y  ! ! !  |"@
    } else if i == 9 {
        " |___________________________|"@
    } else if i == 10 {
        " |~~~~~~~~~~~~~~~~~~~~~~~~~~~|"@
    } else {
        " |___________________________|"@
    }
}

/// Number of cake body rows.
pub const CAKE_ROWS: usize = 12;

fn cake_body_str(i: usize) -> (r: &'static str)
    requires
        i < CAKE_ROWS,
    ensures
        r@ == cake_body(i as int),
        all_ascii(r@),
{
    proof {
        reveal_strlit(" ___|_____|_____|_____|_____|_");
        reveal_strlit(" |  ~  ~  ~  ~  ~  ~  ~  ~ |");
        reveal_strlit(" |  ,-.   ,-.   ,-.   ,-.  |");
        reveal_strlit(" | ( o ) ( o ) ( o ) ( o ) |");
        reveal_strlit(" |  `-'   `-'   `-'   `-'  |");
        reveal_strlit(" |___________________________| ");
        reveal_strlit(" |                           |");
        reveal_strlit(" |   H A P P Y               |");
        reveal_strlit(" |   B I R T H D A Y  ! ! !  |");
        reveal_strlit(" |___________________________|");
        reveal_strlit(" |~~~~~~~~~~~~~~~~~~~~~~~~~~~|");
    }
    match i {
        0 => " ___|_____|_____|_____|_____|_",
        1 => " |  ~  ~  ~  ~  ~  ~  ~  ~ |",
        2 => " |  ,-.   ,-.   ,-.   ,-.  |",
        3 => " | ( o ) ( o ) ( o ) ( o ) |",
        4 => " |  `-'   `-'   `-'   `-'  |",
        5 => " |___________________________| ",
        6 => " |                           |",
        7 => " |   H A P P Y               |",
        8 => " |   B I R T H D A Y  ! ! !  |",
        9 => " |___________________________|",
        10 => " |~~~~~~~~~~~~~~~~~~~~~~~~~~~|",
        _ => " |___________________________|",
    }
}

/// The hint text under the cake.
pub open spec fn cake_hint() -> Seq<char> {
    "  [ Press SPACE or ENTER to continue ]"@
}

/// The colours the cake cycles through.
pub open spec fn birthday_palette_spec() -> Seq<ColorName> {
    seq![
        ColorName::BrightRed,
        ColorName::BrightYellow,
        ColorName::BrightGreen,
        ColorName::BrightCyan,
        ColorName::BrightBlue,
        ColorName::BrightMagenta,
    ]
}

/// The colours the cake cycles through.
pub fn birthday_palette() -> (r: Vec<ColorName>)
    ensures
        r@ == birthday_palette_spec(),
{
    let mut r = Vec::new();
    r.push(ColorName::BrightRed);
    r.push(ColorName::BrightYellow);
    r.push(ColorName::BrightGreen);
    r.push(ColorName::BrightCyan);
    r.push(ColorName::BrightBlue);
    r.push(ColorName::BrightMagenta);
    assert(r@ =~= birthday_palette_spec());
    r
}

/// One frame of the birthday animation: sparkles and candle flames
/// alternate every frame, the rows cycle through the palette, and the hint
/// blinks every two frames.
pub open spec fn frame_spec(user: Seq<char>, pal: Seq<ColorName>, frame: nat) -> Seq<Seq<SegV>> {
    let n = pal.len();
    let even = frame % 2 == 0;
    let flame = if even {
        "    i     i     i     i     i  "@
    } else {
        "   ,*,   ,*,   ,*,   ,*,   ,*, "@
    };
    let hint = if (frame / 2) % 2 == 0 {
        seq![(cake_hint(), Paint::FgBold(ColorName::BrightWhite))]
    } else {
        seq![(cake_hint(), Paint::FgDimmed(ColorName::White))]
    };
    seq![
        seq![(if even { sparkle_even() } else { sparkle_odd() }, Paint::FgBold(pal[(frame % n) as int]))],
        Seq::empty(),
        seq![(cake_pad(flame), Paint::FgBold(pal[((frame + 1) % n) as int]))],
        seq![(cake_pad("    |     |     |     |     |  "@), Paint::Fg(ColorName::BrightYellow))],
    ] + Seq::new(
        12,
        |i: int| seq![(cake_pad(cake_body(i)), Paint::FgBold(pal[((frame + i) % n as int) as int]))],
    ) + seq![
        Seq::empty(),
        seq![("   Happy Birthday, "@ + user + "!   "@, Paint::FgBold(pal[((frame + 3) % n) as int]))],
        Seq::empty(),
        seq![(if even { sparkle_odd() } else { sparkle_even() }, Paint::FgBold(pal[((frame + 2) % n) as int]))],
        Seq::empty(),
        hint,
    ]
}

fn one(text: String, paint: Paint) -> (l: Vec<Segment>)
    ensures
        seg_views(l@) == seq![(text@, paint)],
{
    let mut l = Vec::new();
    l.push(seg(text, paint));
    assert(seg_views(l@) =~= seq![(text@, paint)]);
    l
}

fn blank() -> (l: Vec<Segment>)
    ensures
        seg_views(l@) == Seq::<SegV>::empty(),
{
    let l: Vec<Segment> = Vec::new();
    assert(seg_views(l@) =~= Seq::<SegV>::empty());
    l
}

fn add_line(lines: &mut Vec<Vec<Segment>>, l: Vec<Segment>)
    ensures
        seg_lines_views(final(lines)@) == seg_lines_views(old(lines)@).push(seg_views(l@)),
{
    assert(seg_lines_views(old(lines)@.push(l)) =~= seg_lines_views(old(lines)@).push(seg_views(l@)));
    lines.push(l);
}

/// Builds frame number `frame` of the birthday animation for `user`.
pub fn build_birthday_frame(user: &str, palette: &Vec<ColorName>, frame: usize) -> (r: Vec<Vec<Segment>>)
    requires
        palette.len() > 0,
        frame + 12 <= usize::MAX,
    ensures
        seg_lines_views(r@) == frame_spec(user@, palette@, frame as nat),
{
    let n = palette.len();
    let ghost spec_lines = frame_spec(user@, palette@, frame as nat);
    let even = frame % 2 == 0;
    let sparkle = if even {
        "  * . * . * . * . * . * . * . * . *"
    } else {
        "  . * . * . * . * . * . * . * . * ."
    };
    let flame_line = if even {
        "    i     i     i     i     i  "
    } else {
        "   ,*,   ,*,   ,*,   ,*,   ,*, "
    };
    proof {
        reveal_strlit("    i     i     i     i     i  ");
        reveal_strlit("   ,*,   ,*,   ,*,   ,*,   ,*, ");
        reveal_strlit("    |     |     |     |     |  ");
    }
    let mut lines: Vec<Vec<Segment>> = Vec::new();
    add_line(&mut lines, one(owned(sparkle), Paint::FgBold(palette[frame % n])));
    add_line(&mut lines, blank());
    proof {
        lemma_ascii_cut(flame_line@);
        lemma_ascii_cut("    |     |     |     |     |  "@);
    }
    add_line(&mut lines, one(pad(flame_line), Paint::FgBold(palette[(frame + 1) % n])));
    add_line(&mut lines, one(pad("    |     |     |     |     |  "), Paint::Fg(ColorName::BrightYellow)));
    assert(seg_lines_views(lines@) =~= spec_lines.take(4));
    let mut i: usize = 0;
    while i < CAKE_ROWS
        invariant
            i <= CAKE_ROWS,
            n == palette.len() > 0,
            frame + 12 <= usize::MAX,
            spec_lines == frame_spec(user@, palette@, frame as nat),
            seg_lines_views(lines@) == spec_lines.take(4 + i),
        decreases CAKE_ROWS - i,
    {
        let row = cake_body_str(i);
        proof {
            lemma_ascii_cut(row@);
        }
        let l = one(pad(row), Paint::FgBold(palette[(frame + i) % n]));
        proof {
            assert(seg_views(l@) =~= spec_lines[4 + i]);
        }
        add_line(&mut lines, l);
        i = i + 1;
        assert(seg_lines_views(lines@) =~= spec_lines.take(4 + i));
    }
    add_line(&mut lines, blank());
    let mut banner = owned("   Happy Birthday, ");
    push_str(&mut banner, user);
    push_str(&mut banner, "!   ");
    add_line(&mut lines, one(banner, Paint::FgBold(palette[(frame + 3) % n])));
    add_line(&mut lines, blank());
    let sparkle2 = if even {
        "  . * . * . * . * . * . * . * . * ."
    } else {
        "  * . * . * . * . * . * . * . * . *"
    };
    add_line(&mut lines, one(owned(sparkle2), Paint::FgBold(palette[(frame + 2) % n])));
    add_line(&mut lines, blank());
    let hint = if (frame / 2) % 2 == 0 {
        one(owned("  [ Press SPACE or ENTER to continue ]"), Paint::FgBold(ColorName::BrightWhite))
    } else {
        one(owned("  [ Press SPACE or ENTER to continue ]"), Paint::FgDimmed(ColorName::White))
    };
    add_line(&mut lines, hint);
    assert(seg_lines_views(lines@) =~= spec_lines);
    lines
}

/// The animation frame shown `elapsed_ms` milliseconds after the start
/// (one frame every 300 ms).
pub fn birthday_frame_index(elapsed_ms: u128) -> (f: usize)
    ensures
        f == (elapsed_ms / 300) as usize,
{
    #[verifier::truncate]
    ((elapsed_ms / 300) as usize)
}

/// A key press as the birthday animation sees it.
#[derive(Debug, Clone, Copy, PartialEq, Eq, Structural)]
pub enum KeyPress {
    Char(char),
    Enter,
    Other,
}

/// Space, Enter, `q` and `Q` end the animation.
pub fn ends_animation(k: KeyPress) -> (b: bool)
    ensures
        b == (k == KeyPress::Char(' ') || k == KeyPress::Enter || k == KeyPress::Char('q') || k
            == KeyPress::Char('Q')),
{
    match k {
        KeyPress::Char(c) => c == ' ' || c == 'q' || c == 'Q',
        KeyPress::Enter => true,
        KeyPress::Other => false,
    }
}

/// The name shown in the birthday banner: `$USER`, else `$LOGNAME`, else
/// `You`.
pub fn birthday_user(user: Option<&str>, logname: Option<&str>) -> (r: String)
    ensures
        r@ == match (user, logname) {
            (Some(u), _) => u@,
            (None, Some(l)) => l@,
            (None, None) => "You"@,
        },
{
    match user {
        Some(u) => owned(u),
        None => match logname {
            Some(l) => owned(l),
            None => owned("You"),
        },
    }
}

// ── Event greeting screen ───────────────────────────────────────────────────

/// The event greeting screen: the art, a bold border, the upper-cased
/// message centred on 52 bytes, the event name, and the border again.
pub open spec fn greeting_spec(art: Seq<Seq<char>>, c: ColorName, tc: ColorName, name: Seq<char>, message: Seq<char>) -> Seq<Seq<SegV>> {
    let border = repeat_seq("="@, 52);
    let msg = uppercase(message);
    let pad_len: nat = if utf8_len(msg) >= 52 {
        0
    } else {
        ((52 - utf8_len(msg)) / 2) as nat
    };
    art.map_values(|l: Seq<char>| seq![(l, Paint::Fg(c))]) + seq![
        Seq::empty(),
        seq![(border, Paint::FgBold(c))],
        Seq::empty(),
        seq![(spaces(pad_len), Paint::Plain), (msg, Paint::FgBold(tc))],
        Seq::empty(),
        seq![("  "@ + name, Paint::Fg(c))],
        Seq::empty(),
        seq![(border, Paint::FgBold(c))],
        Seq::empty(),
    ]
}

/// The greeting screen for `event` under the ASCII art `art`.
pub fn greeting_lines(cfg: &VaminfoConfig, event: &GreetingEvent, art: &Vec<String>) -> (r: Vec<Vec<Segment>>)
    ensures
        seg_lines_views(r@) == greeting_spec(
            crate::text::views(art@),
            color_spec(cfg.ascii_color@),
            color_spec(cfg.title_color@),
            event.name@,
            event.message@,
        ),
{
    let c = parse_color(cfg.ascii_color.as_str());
    let tc = parse_color(cfg.title_color.as_str());
    let ghost spec_lines = greeting_spec(crate::text::views(art@), c, tc, event.name@, event.message@);
    let mut lines: Vec<Vec<Segment>> = Vec::new();
    let mut i: usize = 0;
    while i < art.len()
        invariant
            i <= art.len(),
            spec_lines == greeting_spec(crate::text::views(art@), c, tc, event.name@, event.message@),
            seg_lines_views(lines@) == spec_lines.take(i as int),
        decreases art.len() - i,
    {
        let l = one(art[i].clone(), Paint::Fg(c));
        proof {
            assert(seg_views(l@) =~= spec_lines[i as int]);
        }
        add_line(&mut lines, l);
        i = i + 1;
        assert(seg_lines_views(lines@) =~= spec_lines.take(i as int));
    }
    let border = repeat_str("=", 52);
    add_line(&mut lines, blank());
    add_line(&mut lines, one(border.clone(), Paint::FgBold(c)));
    add_line(&mut lines, blank());
    let msg = to_uppercase(event.message.as_str());
    let ml = byte_len(msg.as_str());
    let pad_len: u128 = if ml >= 52 {
        0
    } else {
        (52 - ml) / 2
    };
    let mut mid: Vec<Segment> = Vec::new();
    mid.push(plain(spaces_string(pad_len)));
    mid.push(seg(msg, Paint::FgBold(tc)));
    proof {
        assert(seg_views(mid@) =~= spec_lines[art.len() + 3]);
    }
    add_line(&mut lines, mid);
    add_line(&mut lines, blank());
    let mut nm = owned("  ");
    push_str(&mut nm, event.name.as_str());
    add_line(&mut lines, one(nm, Paint::Fg(c)));
    add_line(&mut lines, blank());
    add_line(&mut lines, one(border, Paint::FgBold(c)));
    add_line(&mut lines, blank());
    assert(seg_lines_views(lines@) =~= spec_lines);
    lines
}

} // verus!
