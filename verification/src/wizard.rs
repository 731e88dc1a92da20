//! The decisions of the interactive configuration wizard. The application
//! prints the menus and reads the answers; each answer is handed to one of
//! these functions, which says what it selects and changes the
//! configuration.

use vstd::prelude::*;
use crate::config::{GreetingEvent, VaminfoConfig, MODULE_COUNT};
use crate::modules::{key_index, lemma_key_index_of_key, module_key};
use crate::num::{dec, dec_string, parse_uint, parse_unsigned, push_dec};
use crate::style::{lowercase, to_lowercase};
use crate::text::{
    has_suffix, join, join_seq, lemma_somes_push, lemma_text_le_total,
    lemma_text_le_trans, owned, push_str, somes, str_eq, text_le, text_le_str,
    to_chars, trim, trim_str, views,
};

verus! {

// ── Main menu ───────────────────────────────────────────────────────────────

/// What an answer to the main menu selects.
#[derive(Debug, Clone, Copy, PartialEq, Eq, Structural)]
pub enum MainAction {
    AsciiSelect,
    ManageArt,
    Colors,
    Modules,
    Display,
    ToggleMini,
    Separator,
    Greetings,
    Preview,
    SaveAndExit,
    Quit,
    Invalid,
}

/// The main-menu entry an answer (in lower case) selects.
pub open spec fn main_action_of(choice: Seq<char>) -> MainAction {
    if choice == "1"@ {
        MainAction::AsciiSelect
    } else if choice == "2"@ {
        MainAction::ManageArt
    } else if choice == "3"@ {
        MainAction::Colors
    } else if choice == "4"@ {
        MainAction::Modules
    } else if choice == "5"@ {
        MainAction::Display
    } else if choice == "6"@ {
        MainAction::ToggleMini
    } else if choice == "7"@ {
        MainAction::Separator
    } else if choice == "8"@ {
        MainAction::Greetings
    } else if choice == "9"@ {
        MainAction::Preview
    } else if choice == "s"@ {
        MainAction::SaveAndExit
    } else if choice == "q"@ {
        MainAction::Quit
    } else {
        MainAction::Invalid
    }
}

/// The main-menu entry an answer selects, ignoring case.
pub fn main_action(input: &str) -> (r: MainAction)
    ensures
        r == main_action_of(lowercase(input@)),
{
    let l = to_lowercase(input);
    let c = l.as_str();
    if str_eq(c, "1") {
        MainAction::AsciiSelect
    } else if str_eq(c, "2") {
        MainAction::ManageArt
    } else if str_eq(c, "3") {
        MainAction::Colors
    } else if str_eq(c, "4") {
        MainAction::Modules
    } else if str_eq(c, "5") {
        MainAction::Display
    } else if str_eq(c, "6") {
        MainAction::ToggleMini
    } else if str_eq(c, "7") {
        MainAction::Separator
    } else if str_eq(c, "8") {
        MainAction::Greetings
    } else if str_eq(c, "9") {
        MainAction::Preview
    } else if str_eq(c, "s") {
        MainAction::SaveAndExit
    } else if str_eq(c, "q") {
        MainAction::Quit
    } else {
        MainAction::Invalid
    }
}

/// Turns mini mode on or off.
pub fn toggle_mini(cfg: &mut VaminfoConfig)
    ensures
        *final(cfg) == (VaminfoConfig { mini_mode: !old(cfg).mini_mode, ..*old(cfg) }),
{
    cfg.mini_mode = !cfg.mini_mode;
}

/// Sets the separator to the answer, unless it is empty.
pub fn set_separator(cfg: &mut VaminfoConfig, input: &str)
    ensures
        input@.len() == 0 ==> *final(cfg) == *old(cfg),
        input@.len() > 0 ==> *final(cfg) == (VaminfoConfig { separator: final(cfg).separator, ..*old(cfg) })
            && final(cfg).separator@ == input@,
{
    if !input.is_empty() {
        cfg.separator = owned(input);
    }
}

/// Where a submenu goes after an answer.
#[derive(Debug, Clone, Copy, PartialEq, Eq, Structural)]
pub enum MenuStep {
    /// The answer was acted on; the submenu shows again.
    Stay,
    /// Back to the menu above.
    Back,
    /// The answer selects nothing.
    Invalid,
}

// ── Display options ─────────────────────────────────────────────────────────

/// Acts on an answer to the display options: `1` turns the title line on
/// or off, `2` the separator line, `3` goes back.
pub fn display_choice(cfg: &mut VaminfoConfig, input: &str) -> (r: MenuStep)
    ensures
        input@ == "1"@ ==> r == MenuStep::Stay && *final(cfg) == (VaminfoConfig {
            show_title: !old(cfg).show_title,
            ..*old(cfg)
        }),
        input@ == "2"@ ==> r == MenuStep::Stay && *final(cfg) == (VaminfoConfig {
            show_separator: !old(cfg).show_separator,
            ..*old(cfg)
        }),
        input@ == "3"@ ==> r == MenuStep::Back && *final(cfg) == *old(cfg),
        input@ != "1"@ && input@ != "2"@ && input@ != "3"@ ==> r == MenuStep::Invalid && *final(cfg)
            == *old(cfg),
{
    proof {
        reveal_strlit("1");
        reveal_strlit("2");
        reveal_strlit("3");
        assert("1"@ != "2"@) by {
            assert("1"@[0] != "2"@[0]);
        }
        assert("1"@ != "3"@) by {
            assert("1"@[0] != "3"@[0]);
        }
        assert("2"@ != "3"@) by {
            assert("2"@[0] != "3"@[0]);
        }
    }
    if str_eq(input, "1") {
        cfg.show_title = !cfg.show_title;
        MenuStep::Stay
    } else if str_eq(input, "2") {
        cfg.show_separator = !cfg.show_separator;
        MenuStep::Stay
    } else if str_eq(input, "3") {
        MenuStep::Back
    } else {
        MenuStep::Invalid
    }
}

// ── Greetings ───────────────────────────────────────────────────────────────

/// What an answer to the greetings menu selects.
#[derive(Debug, Clone, Copy, PartialEq, Eq, Structural)]
pub enum GreetingsAction {
    Toggle,
    SetBirthday,
    AddEvent,
    ListEvents,
    Back,
    Invalid,
}

/// The greetings-menu entry an answer selects.
pub open spec fn greetings_action_of(choice: Seq<char>) -> GreetingsAction {
    if choice == "1"@ {
        GreetingsAction::Toggle
    } else if choice == "2"@ {
        GreetingsAction::SetBirthday
    } else if choice == "3"@ {
        GreetingsAction::AddEvent
    } else if choice == "4"@ {
        GreetingsAction::ListEvents
    } else if choice == "5"@ {
        GreetingsAction::Back
    } else {
        GreetingsAction::Invalid
    }
}

/// The greetings-menu entry an answer selects.
pub fn greetings_action(input: &str) -> (r: GreetingsAction)
    ensures
        r == greetings_action_of(input@),
{
    if str_eq(input, "1") {
        GreetingsAction::Toggle
    } else if str_eq(input, "2") {
        GreetingsAction::SetBirthday
    } else if str_eq(input, "3") {
        GreetingsAction::AddEvent
    } else if str_eq(input, "4") {
        GreetingsAction::ListEvents
    } else if str_eq(input, "5") {
        GreetingsAction::Back
    } else {
        GreetingsAction::Invalid
    }
}

/// Turns greetings on or off.
pub fn toggle_greetings(cfg: &mut VaminfoConfig)
    ensures
        final(cfg).greetings.enabled == !old(cfg).greetings.enabled,
        final(cfg).greetings.birthday == old(cfg).greetings.birthday,
        final(cfg).greetings.events == old(cfg).greetings.events,
        *final(cfg) == (VaminfoConfig { greetings: final(cfg).greetings, ..*old(cfg) }),
{
    cfg.greetings.enabled = !cfg.greetings.enabled;
}

/// Sets the birthday to the trimmed answer (empty clears it).
pub fn set_birthday(cfg: &mut VaminfoConfig, input: &str)
    ensures
        final(cfg).greetings.birthday@ == trim(input@),
        final(cfg).greetings.enabled == old(cfg).greetings.enabled,
        final(cfg).greetings.events == old(cfg).greetings.events,
        *final(cfg) == (VaminfoConfig { greetings: final(cfg).greetings, ..*old(cfg) }),
{
    cfg.greetings.birthday = trim_str(input);
}

/// The date of a new event: the trimmed answer, unless it is blank (which
/// cancels the event).
pub fn event_date(input: &str) -> (r: Option<String>)
    ensures
        match r {
            Some(d) => trim(input@).len() > 0 && d@ == trim(input@),
            None => trim(input@).len() == 0,
        },
{
    let d = trim_str(input);
    if d.as_str().is_empty() {
        None
    } else {
        Some(d)
    }
}

/// Adds an event with the given date and the trimmed name and message.
pub fn add_event(cfg: &mut VaminfoConfig, date: String, name: &str, message: &str)
    ensures
        final(cfg).greetings.events@.len() == old(cfg).greetings.events@.len() + 1,
        final(cfg).greetings.events@.drop_last() == old(cfg).greetings.events@,
        final(cfg).greetings.events@.last().date@ == date@,
        final(cfg).greetings.events@.last().name@ == trim(name@),
        final(cfg).greetings.events@.last().message@ == trim(message@),
        final(cfg).greetings.enabled == old(cfg).greetings.enabled,
        final(cfg).greetings.birthday == old(cfg).greetings.birthday,
        *final(cfg) == (VaminfoConfig { greetings: final(cfg).greetings, ..*old(cfg) }),
{
    let ev = GreetingEvent { date, name: trim_str(name), message: trim_str(message) };
    cfg.greetings.events.push(ev);
    assert(cfg.greetings.events@.drop_last() =~= old(cfg).greetings.events@);
}

/// What an answer to "delete event number" did.
#[derive(Debug, Clone, Copy, PartialEq, Eq, Structural)]
pub enum EventDeletion {
    /// The answer is not a number: nothing happens.
    NotANumber,
    /// The event was deleted.
    Deleted,
    /// No event has that number.
    OutOfRange,
}

/// The number an answer gives, as `str::parse::<usize>` reads it.
pub open spec fn answer_number(input: Seq<char>) -> Option<nat> {
    parse_unsigned(input, usize::MAX as nat)
}

/// Reads an answer as a number.
fn read_number(input: &str) -> (r: Option<usize>)
    ensures
        match r {
            Some(n) => answer_number(input@) == Some(n as nat),
            None => answer_number(input@) is None,
        },
{
    match parse_uint(input, usize::MAX as u64) {
        Some(n) => Some(n as usize),
        None => None,
    }
}

/// Deletes the event whose number (counted from 1) the trimmed answer
/// gives.
pub fn delete_event(cfg: &mut VaminfoConfig, input: &str) -> (r: EventDeletion)
    ensures
        match answer_number(trim(input@)) {
            None => r == EventDeletion::NotANumber && *final(cfg) == *old(cfg),
            Some(n) => if 1 <= n <= old(cfg).greetings.events@.len() {
                r == EventDeletion::Deleted && final(cfg).greetings.events@
                    == old(cfg).greetings.events@.remove(n - 1) && final(cfg).greetings.enabled
                    == old(cfg).greetings.enabled && final(cfg).greetings.birthday
                    == old(cfg).greetings.birthday && *final(cfg) == (VaminfoConfig {
                    greetings: final(cfg).greetings,
                    ..*old(cfg)
                })
            } else {
                r == EventDeletion::OutOfRange && *final(cfg) == *old(cfg)
            },
        },
{
    let t = trim_str(input);
    match read_number(t.as_str()) {
        None => EventDeletion::NotANumber,
        Some(n) => if n >= 1 && n <= cfg.greetings.events.len() {
            cfg.greetings.events.remove(n - 1);
            EventDeletion::Deleted
        } else {
            EventDeletion::OutOfRange
        },
    }
}

// ── Colours ─────────────────────────────────────────────────────────────────

/// Number of colours offered.
pub const COLOR_COUNT: usize = 16;

/// Colour `i` of the list offered, by its configuration name.
pub open spec fn color_option(i: int) -> Seq<char> {
    if i == 0 {
        "black"@
    } else if i == 1 {
        "red"@
    } else if i == 2 {
        "green"@
    } else if i == 3 {
        "yellow"@
    } else if i == 4 {
        "blue"@
    } else if i == 5 {
        "magenta"@
    } else if i == 6 {
        "cyan"@
    } else if i == 7 {
        "white"@
    } else if i == 8 {
        "bright_black"@
    } else if i == 9 {
        "bright_red"@
    } else if i == 10 {
        "bright_green"@
    } else if i == 11 {
        "bright_yellow"@
    } else if i == 12 {
        "bright_blue"@
    } else if i == 13 {
        "bright_magenta"@
    } else if i == 14 {
        "bright_cyan"@
    } else {
        "bright_white"@
    }
}

/// Colour `i` of the list offered.
pub fn color_option_at(i: usize) -> (r: &'static str)
    requires
        i < COLOR_COUNT,
    ensures
        r@ == color_option(i as int),
{
    match i {
        0 => "black",
        1 => "red",
        2 => "green",
        3 => "yellow",
        4 => "blue",
        5 => "magenta",
        6 => "cyan",
        7 => "white",
        8 => "bright_black",
        9 => "bright_red",
        10 => "bright_green",
        11 => "bright_yellow",
        12 => "bright_blue",
        13 => "bright_magenta",
        14 => "bright_cyan",
        _ => "bright_white",
    }
}

/// The colour an answer picks: its number in the list, from 1.
pub open spec fn color_choice_of(choice: Seq<char>) -> Option<Seq<char>> {
    match answer_number(choice) {
        Some(n) if 1 <= n <= COLOR_COUNT => Some(color_option(n - 1)),
        _ => None,
    }
}

/// The colour an answer picks, if any.
pub fn color_choice(choice: &str) -> (r: Option<&'static str>)
    ensures
        match r {
            Some(c) => color_choice_of(choice@) == Some(c@),
            None => color_choice_of(choice@) is None,
        },
{
    match read_number(choice) {
        Some(n) => if n >= 1 && n <= COLOR_COUNT {
            Some(color_option_at(n - 1))
        } else {
            None
        },
        None => None,
    }
}

/// The colour after an answer: the one picked, else the current one (an
/// empty answer keeps it too).
pub fn pick_color(current: &str, choice: &str) -> (r: String)
    ensures
        r@ == match color_choice_of(choice@) {
            Some(c) => if choice@.len() == 0 {
                current@
            } else {
                c
            },
            None => current@,
        },
{
    if choice.is_empty() {
        return owned(current);
    }
    match color_choice(choice) {
        Some(c) => owned(c),
        None => owned(current),
    }
}

/// Which colour setting an answer to the colours menu selects.
#[derive(Debug, Clone, Copy, PartialEq, Eq, Structural)]
pub enum ColorField {
    Ascii,
    Title,
    Key,
    Value,
    Back,
    Invalid,
}

/// The colour setting an answer selects.
pub open spec fn color_field_of(choice: Seq<char>) -> ColorField {
    if choice == "1"@ {
        ColorField::Ascii
    } else if choice == "2"@ {
        ColorField::Title
    } else if choice == "3"@ {
        ColorField::Key
    } else if choice == "4"@ {
        ColorField::Value
    } else if choice == "5"@ {
        ColorField::Back
    } else {
        ColorField::Invalid
    }
}

/// The colour setting an answer selects.
pub fn color_field(input: &str) -> (r: ColorField)
    ensures
        r == color_field_of(input@),
{
    if str_eq(input, "1") {
        ColorField::Ascii
    } else if str_eq(input, "2") {
        ColorField::Title
    } else if str_eq(input, "3") {
        ColorField::Key
    } else if str_eq(input, "4") {
        ColorField::Value
    } else if str_eq(input, "5") {
        ColorField::Back
    } else {
        ColorField::Invalid
    }
}

/// The configuration with colour `value` stored in the setting `field`
/// selects (unchanged for Back and Invalid).
pub open spec fn with_color(cfg: VaminfoConfig, field: ColorField, value: String) -> VaminfoConfig {
    match field {
        ColorField::Ascii => VaminfoConfig { ascii_color: value, ..cfg },
        ColorField::Title => VaminfoConfig { title_color: value, ..cfg },
        ColorField::Key => VaminfoConfig { key_color: value, ..cfg },
        ColorField::Value => VaminfoConfig { value_color: value, ..cfg },
        _ => cfg,
    }
}

/// The colour listed at position `n` of the colours menu: 1 the ASCII art
/// colour, 2 the title colour, 3 the key colour, 4 the value colour.
pub open spec fn listed_color(cfg: VaminfoConfig, n: int) -> Seq<char> {
    if n == 1 {
        cfg.ascii_color@
    } else if n == 2 {
        cfg.title_color@
    } else if n == 3 {
        cfg.key_color@
    } else {
        cfg.value_color@
    }
}

/// Answering the colours menu with the number of a listed colour and then
/// giving a colour sets exactly that colour: the colour at that position of
/// the list becomes the one given, and the other listed colours stay.
pub proof fn law_color_menu_sets_listed(cfg: VaminfoConfig, n: int, k: int, value: String)
    requires
        1 <= n <= 4,
        1 <= k <= 4,
    ensures
        listed_color(with_color(cfg, color_field_of(crate::num::dec(n as nat)), value), n) == value@,
        k != n ==> listed_color(with_color(cfg, color_field_of(crate::num::dec(n as nat)), value), k)
            == listed_color(cfg, k),
{
    reveal_strlit("1");
    reveal_strlit("2");
    reveal_strlit("3");
    reveal_strlit("4");
    reveal_strlit("5");
    let s = crate::num::dec(n as nat);
    assert(s =~= seq![crate::num::digit(n as nat)]);
    assert(crate::num::digit(1) == '1');
    assert(crate::num::digit(2) == '2');
    assert(crate::num::digit(3) == '3');
    assert(crate::num::digit(4) == '4');
    assert("1"@ =~= seq!['1']);
    assert("2"@ =~= seq!['2']);
    assert("3"@ =~= seq!['3']);
    assert("4"@ =~= seq!['4']);
    let f = if n == 1 {
        ColorField::Ascii
    } else if n == 2 {
        ColorField::Title
    } else if n == 3 {
        ColorField::Key
    } else {
        ColorField::Value
    };
    if n == 1 {
        assert(s =~= "1"@);
    } else if n == 2 {
        assert(s =~= "2"@);
        assert(s[0] != ("1"@)[0]);
    } else if n == 3 {
        assert(s =~= "3"@);
        assert(s[0] != ("1"@)[0] && s[0] != ("2"@)[0]);
    } else {
        assert(s =~= "4"@);
        assert(s[0] != ("1"@)[0] && s[0] != ("2"@)[0] && s[0] != ("3"@)[0]);
    }
    assert(color_field_of(s) == f);
    let c2 = with_color(cfg, f, value);
    assert(listed_color(c2, n) == value@);
}

/// Stores a colour in the selected setting.
pub fn set_color(cfg: &mut VaminfoConfig, field: ColorField, value: String)
    ensures
        *final(cfg) == with_color(*old(cfg), field, value),
        field == ColorField::Ascii ==> *final(cfg) == (VaminfoConfig { ascii_color: value, ..*old(cfg) }),
        field == ColorField::Title ==> *final(cfg) == (VaminfoConfig { title_color: value, ..*old(cfg) }),
        field == ColorField::Key ==> *final(cfg) == (VaminfoConfig { key_color: value, ..*old(cfg) }),
        field == ColorField::Value ==> *final(cfg) == (VaminfoConfig { value_color: value, ..*old(cfg) }),
        field == ColorField::Back || field == ColorField::Invalid ==> *final(cfg) == *old(cfg),
{
    match field {
        ColorField::Ascii => cfg.ascii_color = value,
        ColorField::Title => cfg.title_color = value,
        ColorField::Key => cfg.key_color = value,
        ColorField::Value => cfg.value_color = value,
        _ => {},
    }
}

// ── Module toggles ──────────────────────────────────────────────────────────

/// Number of modules the toggle menu lists: every module.
pub const TOGGLE_COUNT: usize = 38;

/// The configuration key of the module that entry `n` (from 1) of the toggle
/// menu switches; the menu groups the modules by topic.
pub open spec fn toggle_key(n: int) -> Seq<char> {
    if n == 1 {
        "hostname"@
    } else if n == 2 {
        "os"@
    } else if n == 3 {
        "kernel"@
    } else if n == 4 {
        "bios"@
    } else if n == 5 {
        "cpu"@
    } else if n == 6 {
        "gpu"@
    } else if n == 7 {
        "ram"@
    } else if n == 8 {
        "disk"@
    } else if n == 9 {
        "battery"@
    } else if n == 10 {
        "bluetooth"@
    } else if n == 11 {
        "uptime"@
    } else if n == 12 {
        "sys_age"@
    } else if n == 13 {
        "shell"@
    } else if n == 14 {
        "terminal"@
    } else if n == 15 {
        "tty_type"@
    } else if n == 16 {
        "desktop"@
    } else if n == 17 {
        "display_server"@
    } else if n == 18 {
        "resolution"@
    } else if n == 19 {
        "theme"@
    } else if n == 20 {
        "fs_type"@
    } else if n == 21 {
        "sudo_status"@
    } else if n == 22 {
        "local_ip"@
    } else if n == 23 {
        "public_ip"@
    } else if n == 24 {
        "network"@
    } else if n == 25 {
        "android_version"@
    } else if n == 26 {
        "android_device"@
    } else if n == 27 {
        "vamorasys_version"@
    } else if n == 28 {
        "vmf_version"@
    } else if n == 29 {
        "vamora_version_codename"@
    } else if n == 30 {
        "birthday_countdown"@
    } else if n == 31 {
        "quotes"@
    } else if n == 32 {
        "jokes"@
    } else if n == 33 {
        "color_blocks_big"@
    } else if n == 34 {
        "color_blocks_small"@
    } else if n == 35 {
        "packages"@
    } else if n == 36 {
        "swap"@
    } else if n == 37 {
        "load_average"@
    } else {
        "temperature"@
    }
}

/// The module (by canonical position) that entry `n` of the toggle menu
/// switches: the one whose key stands at that entry.
pub open spec fn toggle_entry(n: int) -> int {
    match key_index(toggle_key(n)) {
        Some(i) => i,
        None => -1,
    }
}

/// The canonical position of the key at menu entry `n`.
spec fn menu_position(n: int) -> int {
    if n == 1 {
        4
    } else if n == 2 {
        0
    } else if n == 3 {
        5
    } else if n == 4 {
        6
    } else if n == 5 {
        9
    } else if n == 6 {
        10
    } else if n == 7 {
        12
    } else if 8 <= n <= 24 {
        n + 8
    } else if n == 25 {
        7
    } else if n == 26 {
        8
    } else if n == 27 {
        1
    } else if n == 28 {
        2
    } else if n == 29 {
        3
    } else if n <= 34 {
        n + 3
    } else if n == 35 {
        11
    } else {
        n - 23
    }
}

/// Entry `n` switches the module at `menu_position(n)`.
proof fn lemma_toggle_entry_position(n: int)
    requires
        1 <= n <= TOGGLE_COUNT,
    ensures
        toggle_entry(n) == menu_position(n),
        0 <= menu_position(n) < MODULE_COUNT,
{
    let i = menu_position(n);
    assert(0 <= i < MODULE_COUNT);
    assert(toggle_key(n) == module_key(i));
    lemma_key_index_of_key(i);
}

/// The entry number an answer names: one of `1` to `38` written exactly.
pub open spec fn toggle_number_from(choice: Seq<char>, n: int) -> Option<int>
    decreases 39 - n,
{
    if n < 1 || n > 38 {
        None
    } else if choice == dec(n as nat) {
        Some(n)
    } else {
        toggle_number_from(choice, n + 1)
    }
}

fn toggle_module_index(n: usize) -> (r: usize)
    requires
        1 <= n <= 38,
    ensures
        r == toggle_entry(n as int),
        r < MODULE_COUNT,
{
    proof {
        lemma_toggle_entry_position(n as int);
    }
    if n == 1 {
        4
    } else if n == 2 {
        0
    } else if n == 3 {
        5
    } else if n == 4 {
        6
    } else if n == 5 {
        9
    } else if n == 6 {
        10
    } else if n == 7 {
        12
    } else if n <= 24 {
        n + 8
    } else if n == 25 {
        7
    } else if n == 26 {
        8
    } else if n == 27 {
        1
    } else if n == 28 {
        2
    } else if n == 29 {
        3
    } else if n <= 34 {
        n + 3
    } else if n == 35 {
        11
    } else {
        n - 23
    }
}

/// Acts on an answer to the toggle menu: `0` goes back; an entry number
/// switches its module on or off.
pub fn toggle_module(cfg: &mut VaminfoConfig, input: &str) -> (r: MenuStep)
    ensures
        input@ == "0"@ ==> r == MenuStep::Back && *final(cfg) == *old(cfg),
        input@ != "0"@ ==> match toggle_number_from(input@, 1) {
            Some(n) => r == MenuStep::Stay && *final(cfg) == (VaminfoConfig {
                modules: old(cfg).modules.with_flag(
                    toggle_entry(n),
                    !old(cfg).modules.flag(toggle_entry(n)),
                ),
                ..*old(cfg)
            }),
            None => r == MenuStep::Invalid && *final(cfg) == *old(cfg),
        },
{
    if str_eq(input, "0") {
        return MenuStep::Back;
    }
    let mut n: usize = 1;
    while n <= TOGGLE_COUNT
        invariant
            1 <= n <= 39,
            *cfg == *old(cfg),
            input@ != "0"@,
            toggle_number_from(input@, 1) == toggle_number_from(input@, n as int),
        decreases 39 - n,
    {
        let d = dec_string(n as u128);
        proof {
            crate::num::lemma_dec_not_zero(n as nat);
        }
        if str_eq(d.as_str(), input) {
            let i = toggle_module_index(n);
            let v = !cfg.modules.get_flag(i);
            cfg.modules.set_flag(i, v);
            return MenuStep::Stay;
        }
        n = n + 1;
    }
    MenuStep::Invalid
}

// ── ASCII art files ─────────────────────────────────────────────────────────

/// What an answer to the art-file menu selects.
#[derive(Debug, Clone, Copy, PartialEq, Eq, Structural)]
pub enum ManageAction {
    AddArt,
    DeleteArt,
    Back,
    Invalid,
}

/// The art-file menu entry an answer selects.
pub open spec fn manage_action_of(choice: Seq<char>) -> ManageAction {
    if choice == "1"@ {
        ManageAction::AddArt
    } else if choice == "2"@ {
        ManageAction::DeleteArt
    } else if choice == "3"@ {
        ManageAction::Back
    } else {
        ManageAction::Invalid
    }
}

/// The art-file menu entry an answer selects.
pub fn manage_action(input: &str) -> (r: ManageAction)
    ensures
        r == manage_action_of(input@),
{
    if str_eq(input, "1") {
        ManageAction::AddArt
    } else if str_eq(input, "2") {
        ManageAction::DeleteArt
    } else if str_eq(input, "3") {
        ManageAction::Back
    } else {
        ManageAction::Invalid
    }
}

/// The file of the built-in art, which cannot be deleted.
pub open spec fn default_art_file() -> Seq<char> {
    "ascii1.vtxt"@
}

/// What an answer to the art selection did.
#[derive(Debug, Clone, Copy, PartialEq, Eq, Structural)]
pub enum ArtSelection {
    /// Empty answer: the current art stays.
    Keep,
    /// `0`: the built-in art.
    Default,
    /// A listed file.
    Selected,
    /// Anything else.
    Invalid,
}

/// Acts on an answer to the art selection over the listed art files.
pub fn select_art(cfg: &mut VaminfoConfig, files: &Vec<String>, choice: &str) -> (r: ArtSelection)
    ensures
        choice@.len() == 0 ==> r == ArtSelection::Keep && *final(cfg) == *old(cfg),
        choice@.len() > 0 ==> match answer_number(choice@) {
            Some(n) => if n == 0 {
                r == ArtSelection::Default && final(cfg).ascii_file@ == default_art_file()
                    && *final(cfg) == (VaminfoConfig { ascii_file: final(cfg).ascii_file, ..*old(cfg) })
            } else if n <= files@.len() {
                r == ArtSelection::Selected && final(cfg).ascii_file@ == files@[n - 1]@ && *final(cfg)
                    == (VaminfoConfig { ascii_file: final(cfg).ascii_file, ..*old(cfg) })
            } else {
                r == ArtSelection::Invalid && *final(cfg) == *old(cfg)
            },
            None => r == ArtSelection::Invalid && *final(cfg) == *old(cfg),
        },
{
    if choice.is_empty() {
        return ArtSelection::Keep;
    }
    match read_number(choice) {
        Some(n) => if n == 0 {
            cfg.ascii_file = owned("ascii1.vtxt");
            ArtSelection::Default
        } else if n <= files.len() {
            cfg.ascii_file = files[n - 1].clone();
            ArtSelection::Selected
        } else {
            ArtSelection::Invalid
        },
        None => ArtSelection::Invalid,
    }
}

/// The name of custom art file number `idx`: `"customN.vtxt"`.
pub fn custom_art_name(idx: u32) -> (r: String)
    ensures
        r@ == "custom"@ + dec(idx as nat) + ".vtxt"@,
{
    let mut r = owned("custom");
    push_dec(&mut r, idx as u128);
    push_str(&mut r, ".vtxt");
    r
}

/// A pasted line that ends the art: `END` on its own, blanks aside.
pub fn is_end_marker(line: &str) -> (b: bool)
    ensures
        b == (trim(line@) == "END"@),
{
    let t = trim_str(line);
    str_eq(t.as_str(), "END")
}

/// Pasted art with nothing in it: no lines, or only blank ones.
pub fn art_is_blank(lines: &Vec<String>) -> (b: bool)
    ensures
        b == forall|i: int| 0 <= i < lines@.len() ==> trim(#[trigger] lines@[i]@).len() == 0,
{
    let mut i: usize = 0;
    while i < lines.len()
        invariant
            i <= lines.len(),
            forall|k: int| 0 <= k < i ==> trim(#[trigger] lines@[k]@).len() == 0,
        decreases lines.len() - i,
    {
        let t = trim_str(lines[i].as_str());
        if !t.as_str().is_empty() {
            return false;
        }
        i = i + 1;
    }
    true
}

/// The file contents for pasted art: its lines joined by newlines.
pub fn art_text(lines: &Vec<String>) -> (r: String)
    ensures
        r@ == join_seq(views(lines@), "\n"@),
{
    join(lines, "\n")
}

/// A line read from the terminal without its line ending: one trailing
/// newline, then one trailing carriage return, are dropped.
pub fn strip_line_ending(buf: &str) -> (r: String)
    ensures
        r@ == crate::text::strip_cr(
            if buf@.len() > 0 && buf@.last() == '\n' {
                buf@.drop_last()
            } else {
                buf@
            },
        ),
{
    let v = to_chars(buf);
    let s = if v.len() > 0 && v[v.len() - 1] == '\n' {
        crate::text::string_of(&v, 0, v.len() - 1)
    } else {
        crate::text::string_from(&v)
    };
    proof {
        assert(v@.subrange(0, v@.len() - 1) =~= v@.drop_last());
    }
    crate::text::strip_cr_string(s)
}

/// What an answer to the art deletion selects.
#[derive(Debug, Clone)]
pub enum ArtDeletion {
    /// `0`: nothing is deleted.
    Cancel,
    /// The built-in art, which stays.
    Protected,
    /// A listed file, to delete once confirmed.
    Confirm(String),
    /// Anything else.
    Invalid,
}

/// The file an answer to the art deletion selects among the listed files.
pub fn delete_art_choice(files: &Vec<String>, choice: &str) -> (r: ArtDeletion)
    ensures
        match answer_number(choice@) {
            Some(n) => if n == 0 {
                r is Cancel
            } else if n <= files@.len() {
                if files@[n - 1]@ == default_art_file() {
                    r is Protected
                } else {
                    r matches ArtDeletion::Confirm(name) && name@ == files@[n - 1]@
                }
            } else {
                r is Invalid
            },
            None => r is Invalid,
        },
{
    match read_number(choice) {
        Some(n) => if n == 0 {
            ArtDeletion::Cancel
        } else if n <= files.len() {
            if str_eq(files[n - 1].as_str(), "ascii1.vtxt") {
                ArtDeletion::Protected
            } else {
                ArtDeletion::Confirm(files[n - 1].clone())
            }
        } else {
            ArtDeletion::Invalid
        },
        None => ArtDeletion::Invalid,
    }
}

/// A confirmation answer: `y` in either case.
pub fn confirms(answer: &str) -> (b: bool)
    ensures
        b == (lowercase(answer@) == "y"@),
{
    let l = to_lowercase(answer);
    str_eq(l.as_str(), "y")
}

/// The art file names among a directory's entries: those ending in
/// `.vtxt`, in the listed order.
pub open spec fn vtxt_names(names: Seq<Seq<char>>) -> Seq<Seq<char>> {
    somes(
        names.map_values(
            |n: Seq<char>|
                if has_suffix(n, ".vtxt"@) {
                    Some(n)
                } else {
                    None
                },
        ),
    )
}

/// `s` is in text order.
pub open spec fn text_sorted(s: Seq<Seq<char>>) -> bool {
    forall|i: int, j: int| 0 <= i < j < s.len() ==> text_le(#[trigger] s[i], #[trigger] s[j])
}

/// Where `x` goes in sorted `out`: before the first entry it sorts below.
fn insert_position(out: &Vec<String>, x: &str) -> (p: usize)
    requires
        text_sorted(views(out@)),
    ensures
        p <= out@.len(),
        forall|k: int| 0 <= k < p ==> text_le(#[trigger] views(out@)[k], x@),
        forall|k: int| p <= k < out@.len() ==> text_le(x@, #[trigger] views(out@)[k]),
{
    let mut p: usize = 0;
    while p < out.len() && text_le_str(out[p].as_str(), x)
        invariant
            p <= out@.len(),
            forall|k: int| 0 <= k < p ==> text_le(#[trigger] views(out@)[k], x@),
        decreases out.len() - p,
    {
        p = p + 1;
    }
    proof {
        if p < out@.len() {
            assert(!text_le(views(out@)[p as int], x@));
            lemma_text_le_total(views(out@)[p as int], x@);
            assert forall|k: int| p <= k < out@.len() implies text_le(x@, #[trigger] views(out@)[k]) by {
                if k > p {
                    lemma_text_le_trans(x@, views(out@)[p as int], views(out@)[k]);
                }
            }
        }
    }
    p
}

/// The art files among a directory's entries, sorted.
pub fn art_files(names: &Vec<String>) -> (r: Vec<String>)
    ensures
        views(r@).to_multiset() == vtxt_names(views(names@)).to_multiset(),
        text_sorted(views(r@)),
{
    let ghost nv = views(names@);
    let ghost m = nv.map_values(
        |n: Seq<char>|
            if has_suffix(n, ".vtxt"@) {
                Some(n)
            } else {
                None
            },
    );
    let mut out: Vec<String> = Vec::new();
    let mut i: usize = 0;
    assert(views(out@) =~= Seq::<Seq<char>>::empty());
    assert(somes(m.take(0)) =~= Seq::<Seq<char>>::empty());
    while i < names.len()
        invariant
            i <= names.len(),
            nv == views(names@),
            m == nv.map_values(
                |n: Seq<char>|
                    if has_suffix(n, ".vtxt"@) {
                        Some(n)
                    } else {
                        None
                    },
            ),
            views(out@).to_multiset() == somes(m.take(i as int)).to_multiset(),
            text_sorted(views(out@)),
        decreases names.len() - i,
    {
        proof {
            assert(m.take(i + 1) =~= m.take(i as int).push(m[i as int]));
            lemma_somes_push(m.take(i as int), m[i as int]);
        }
        if crate::text::ends_with(names[i].as_str(), ".vtxt") {
            let x = names[i].clone();
            let p = insert_position(&out, x.as_str());
            let ghost before = views(out@);
            out.insert(p, x);
            proof {
                assert(views(out@) =~= before.insert(p as int, x@));
                vstd::seq_lib::to_multiset_insert(before, p as int, x@);
                vstd::seq_lib::to_multiset_build(somes(m.take(i as int)), x@);
                assert forall|a: int, b: int| 0 <= a < b < views(out@).len() implies text_le(
                    #[trigger] views(out@)[a],
                    #[trigger] views(out@)[b],
                ) by {
                    if b < p {
                        assert(views(out@)[a] == before[a] && views(out@)[b] == before[b]);
                    } else if b == p {
                        assert(views(out@)[a] == before[a]);
                    } else if a < p {
                        assert(views(out@)[a] == before[a] && views(out@)[b] == before[b - 1]);
                        lemma_text_le_trans(before[a], x@, before[b - 1]);
                    } else if a == p {
                        assert(views(out@)[b] == before[b - 1]);
                    } else {
                        assert(views(out@)[a] == before[a - 1] && views(out@)[b] == before[b - 1]);
                    }
                }
            }
        }
        i = i + 1;
    }
    assert(m.take(names.len() as int) =~= m);
    out
}

// ── Laws ────────────────────────────────────────────────────────────────────

/// Each entry of the toggle menu switches its own module: different entries
/// name different modules, all of them real.
pub proof fn law_toggle_entries_distinct(a: int, b: int)
    requires
        1 <= a <= TOGGLE_COUNT,
        1 <= b <= TOGGLE_COUNT,
        a != b,
    ensures
        toggle_entry(a) != toggle_entry(b),
        0 <= toggle_entry(a) < MODULE_COUNT,
{
    lemma_toggle_entry_position(a);
    lemma_toggle_entry_position(b);
}

/// The toggle-menu entry of module `i` (by canonical position).
pub open spec fn toggle_entry_of(i: int) -> int {
    if i == 0 {
        2
    } else if i <= 3 {
        i + 26
    } else if i == 4 {
        1
    } else if i <= 6 {
        i - 2
    } else if i <= 8 {
        i + 18
    } else if i <= 10 {
        i - 4
    } else if i == 11 {
        35
    } else if i == 12 {
        7
    } else if i <= 15 {
        i + 23
    } else if i <= 32 {
        i - 8
    } else {
        i - 3
    }
}

/// An answer naming entry `n` of the toggle menu is read as `n`.
proof fn lemma_toggle_number_of_dec(n: int, k: int)
    requires
        1 <= k <= n <= 38,
    ensures
        toggle_number_from(dec(n as nat), k) == Some(n),
    decreases n - k,
{
    if k != n {
        crate::num::lemma_dec_injective(k as nat, n as nat);
        lemma_toggle_number_of_dec(n, k + 1);
    }
}

/// Every module can be switched from the toggle menu: answering the number
/// of its entry (written in decimal) switches that module, and only it.
pub proof fn law_every_module_toggleable(i: int)
    requires
        0 <= i < MODULE_COUNT,
    ensures
        1 <= toggle_entry_of(i) <= TOGGLE_COUNT,
        toggle_entry(toggle_entry_of(i)) == i,
        dec(toggle_entry_of(i) as nat) != "0"@,
        toggle_number_from(dec(toggle_entry_of(i) as nat), 1) == Some(toggle_entry_of(i)),
{
    let n = toggle_entry_of(i);
    assert(1 <= n <= TOGGLE_COUNT);
    lemma_toggle_entry_position(n);
    crate::num::lemma_dec_not_zero(n as nat);
    lemma_toggle_number_of_dec(n, 1);
}

/// Deleting the event just added gives back the events: `add_event` appends
/// and `delete_event` with the last number removes that entry.
pub proof fn law_add_then_delete_event(events: Seq<GreetingEvent>, e: GreetingEvent)
    ensures
        events.push(e).remove(events.len() as int) == events,
        1 <= events.push(e).len(),
{
    assert(events.push(e).remove(events.len() as int) =~= events);
}

} // verus!
