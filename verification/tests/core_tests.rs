use vaminfo::ascii::{ascii_width, load_ascii, truncate_to_visible, visible_len, DEFAULT_ASCII};
use vaminfo::calendar::{
    day_number_fits, days_in_month, days_until, format_month_day, is_leap, parse_md, ts_to_ymd,
    ymd_to_days,
};
use vaminfo::config::{art_dir, config_path, dirs_home, VaminfoConfig, MODULE_COUNT};
use vaminfo::greetings::{
    birthday_frame_index, birthday_user, ends_animation, events_on, greeting_lines, is_birthday_on, pad,
    KeyPress,
};
use vaminfo::layout::{decide_layout, detect_terminal_size, LayoutMode, TerminalSize};
use vaminfo::modules::{
    build_mini_modules, build_modules, effective_order, is_enabled, module_icon, set_enabled,
    ModuleKind,
};
use vaminfo::num::{dec_string, fixed, parse_uint};
use vaminfo::renderer::{build_info_lines, json_escape, render_json, user_host};
use vaminfo::style::{parse_color, render_line, render_segment, seg, ColorName, Paint};
use vaminfo::tips::{tip_for_seed, TIP_COUNT};
use vaminfo::config::GreetingEvent;

fn s(x: &str) -> String {
    x.to_string()
}

#[test]
fn visible_length_ignores_colour_codes() {
    assert_eq!(visible_len("abc"), 3);
    assert_eq!(visible_len("\x1b[31mabc\x1b[0m"), 3);
    assert_eq!(visible_len("é▒"), 2);
    assert_eq!(ascii_width(&vec![s("ab"), s("\x1b[1mabcd\x1b[0m"), s("")]), 4);
}

#[test]
fn truncation_keeps_the_visible_prefix() {
    assert_eq!(truncate_to_visible("abc", 3), "abc");
    assert_eq!(truncate_to_visible("abcdef", 3), "abc\x1b[0m");
    assert_eq!(truncate_to_visible("\x1b[31mabcdef\x1b[0m", 2), "\x1b[31mab\x1b[0m");
    assert_eq!(visible_len(&truncate_to_visible("\x1b[31mabcdef\x1b[0m", 4)), 4);
    assert_eq!(truncate_to_visible("abc", 0), "\x1b[0m");
}

#[test]
fn art_falls_back_to_the_built_in_logo() {
    let builtin = load_ascii(None);
    assert_eq!(builtin, DEFAULT_ASCII.lines().map(|l| l.to_string()).collect::<Vec<_>>());
    assert_eq!(load_ascii(Some("   \n\t")), builtin);
    assert_eq!(load_ascii(Some("a\nb\r\nc")), vec![s("a"), s("b"), s("c")]);
}

#[test]
fn calendar_dates() {
    assert_eq!(ts_to_ymd(0), (1970, 1, 1));
    assert_eq!(ts_to_ymd(1_000_000_000), (2001, 9, 9));
    assert_eq!(ts_to_ymd(951_782_400), (2000, 2, 29));
    assert!(is_leap(2000) && is_leap(2024) && !is_leap(1900) && !is_leap(2023));
    assert_eq!(days_in_month(2024, 2), 29);
    assert_eq!(days_in_month(2023, 2), 28);
    assert_eq!(ymd_to_days(1970, 1, 1), 0);
    assert_eq!(ymd_to_days(2001, 9, 9), 11_574);
    assert_eq!(days_until(2024, 7, 16, 7, 15), 364);
    assert_eq!(days_until(2024, 12, 31, 1, 1), 1);
    assert_eq!(days_until(2023, 3, 1, 2, 29), 0);
    assert_eq!(days_until(2023, 3, 2, 2, 29), 364);
    assert_eq!(days_until(4_294_967_294, 12, 31, 1, 1), 1);
    assert_eq!(days_until(4_294_967_294, 7, 16, 7, 15), 364);
    assert_eq!(format_month_day(7, 5), "07-05");
    assert_eq!(parse_md("07-15"), Some((7, 15)));
    assert_eq!(parse_md("7-5"), Some((7, 5)));
    assert_eq!(parse_md("+7-5"), Some((7, 5)));
    assert_eq!(parse_md("00-10"), None);
    assert_eq!(parse_md("07-32"), None);
    assert_eq!(parse_md("0715"), None);
    assert!(day_number_fits(2025, 12, 31));
    assert!(!day_number_fits(20_000_000, 1, 1));
}

#[test]
fn date_round_trip() {
    for (y, m, d) in [(1970u32, 1u32, 1u32), (1999, 12, 31), (2000, 2, 29), (2024, 7, 15), (2100, 3, 1)] {
        let days = ymd_to_days(y, m, d) as u64;
        assert_eq!(ts_to_ymd(days * 86400 + 12345), (y, m, d));
    }
}

#[test]
fn month_day_text_reads_back() {
    for m in 1..=12u32 {
        for d in 1..=31u32 {
            assert_eq!(parse_md(&format_month_day(m, d)), Some((m, d)));
        }
    }
}

#[test]
fn countdown_stays_within_a_year() {
    for (y, m, d) in [(2023u32, 1u32, 1u32), (2024, 2, 29), (2024, 12, 31), (2025, 6, 15)] {
        for bm in 1..=12u32 {
            for bd in [1u32, 15, 28, 31] {
                assert!(days_until(y, m, d, bm, bd) <= 366);
            }
        }
    }
}

#[test]
fn config_defaults_and_paths() {
    let cfg = VaminfoConfig::default();
    assert_eq!(cfg.ascii_file, "ascii1.vtxt");
    assert_eq!(cfg.ascii_color, "blue");
    assert_eq!(cfg.title_color, "bright_blue");
    assert_eq!(cfg.separator, "-");
    assert!(!cfg.mini_mode && cfg.show_title && cfg.show_separator && cfg.icons_enabled);
    assert!(cfg.module_order.is_empty());
    assert_eq!(config_path("/home/u"), "/home/u/.VamoraSys/apps/vaminfo/config.vmf");
    assert_eq!(art_dir("/home/u"), "/home/u/.VamoraSys/apps/vaminfo/art");
    assert_eq!(dirs_home(Some("/home/a"), Some("C:\\b")), "/home/a");
    assert_eq!(dirs_home(None, Some("C:\\b")), "C:\\b");
    assert_eq!(dirs_home(None, None), ".");
}

#[test]
fn module_switches_read_back() {
    let mut cfg = VaminfoConfig::default();
    for key in ["os", "ram", "color_blocks_small", "public_ip"] {
        set_enabled(&mut cfg, key, true);
        assert!(is_enabled(&cfg, key));
        set_enabled(&mut cfg, key, false);
        assert!(!is_enabled(&cfg, key));
    }
    let before = cfg.clone();
    set_enabled(&mut cfg, "no_such_module", true);
    assert!(!is_enabled(&cfg, "no_such_module"));
    for i in 0..MODULE_COUNT {
        assert_eq!(cfg.modules.get_flag(i), before.modules.get_flag(i));
    }
}

#[test]
fn display_order_keeps_every_module() {
    let mut cfg = VaminfoConfig::default();
    let order = effective_order(&cfg);
    assert_eq!(order.len(), MODULE_COUNT);
    assert_eq!(order[0], "os");
    assert_eq!(order[37], "color_blocks_small");
    cfg.module_order = vec![s("ram"), s("custom"), s("os")];
    let order = effective_order(&cfg);
    assert_eq!(&order[..3], &[s("ram"), s("custom"), s("os")]);
    assert_eq!(order.len(), 3 + MODULE_COUNT - 2);
    assert_eq!(order[3], "vamorasys_version");
    assert_eq!(order.iter().filter(|k| *k == "ram").count(), 1);
}

#[test]
fn display_order_is_settled() {
    for saved in [vec![], vec![s("ram"), s("custom"), s("os")]] {
        let mut cfg = VaminfoConfig::default();
        cfg.module_order = saved;
        let order = effective_order(&cfg);
        let mut again = cfg.clone();
        again.module_order = order.clone();
        assert_eq!(effective_order(&again), order);
        let mut seen = order.clone();
        seen.sort();
        seen.dedup();
        assert_eq!(seen.len(), order.len());
    }
}

#[test]
fn visible_width_of_joined_text() {
    let a = "\x1b[31mab\x1b[0m";
    let b = "c\x1b[1md";
    assert_eq!(visible_len(&format!("{}{}", a, b)), visible_len(a) + visible_len(b));
    assert_eq!(visible_len(&format!("{}{}", "x\x1b[3", "1my")), 2);
}

#[test]
fn built_modules_follow_order_and_switches() {
    let mut cfg = VaminfoConfig::default();
    cfg.module_order = vec![s("ram"), s("os"), s("custom"), s("swap")];
    set_enabled(&mut cfg, "swap", false);
    let kinds = build_modules(&cfg);
    assert_eq!(kinds[0], ModuleKind::Ram);
    assert_eq!(kinds[1], ModuleKind::Os);
    assert!(!kinds.contains(&ModuleKind::Swap));
    assert_eq!(
        build_mini_modules(),
        vec![ModuleKind::Os, ModuleKind::Hostname, ModuleKind::Ram, ModuleKind::Uptime]
    );
}

#[test]
fn icons() {
    assert_eq!(module_icon("OS"), "󰌽");
    assert_eq!(module_icon("Joke"), "󰱨");
    assert_eq!(module_icon("Nothing"), "󰫢");
    assert_eq!(module_icon("Terminal"), "\u{e795}");
    for k in [ModuleKind::Cpu, ModuleKind::Terminal, ModuleKind::Jokes, ModuleKind::Os] {
        assert_ne!(module_icon(k.name()), "󰫢");
    }
}

#[test]
fn layout_choice() {
    let t = detect_terminal_size(None);
    assert_eq!((t.cols, t.rows), (80, 24));
    let t = detect_terminal_size(Some((120, 40)));
    assert_eq!((t.cols, t.rows), (120, 40));
    assert_eq!(decide_layout(&TerminalSize { cols: 100, rows: 30 }, 50), LayoutMode::Split);
    assert_eq!(decide_layout(&TerminalSize { cols: 99, rows: 30 }, 50), LayoutMode::Stacked);
    assert_eq!(decide_layout(&TerminalSize { cols: 100, rows: 9 }, 50), LayoutMode::Stacked);
    assert_eq!(decide_layout(&TerminalSize { cols: 40, rows: 30 }, 0), LayoutMode::Stacked);
}

#[test]
fn numbers() {
    assert_eq!(dec_string(0), "0");
    assert_eq!(dec_string(1234567890123), "1234567890123");
    assert_eq!(parse_uint("42", 100), Some(42));
    assert_eq!(parse_uint("+42", 100), Some(42));
    assert_eq!(parse_uint("101", 100), None);
    assert_eq!(parse_uint("", 100), None);
    assert_eq!(parse_uint("4 2", 100), None);
    assert_eq!(fixed(1, 8, 2), "0.12");
    assert_eq!(fixed(3, 8, 2), "0.38");
    assert_eq!(fixed(5, 2, 0), "2");
    assert_eq!(fixed(7, 2, 0), "4");
    assert_eq!(fixed(100, 3, 1), "33.3");
}

#[test]
fn json_export() {
    assert_eq!(json_escape("a\"b\\c\nd\te\r"), "a\\\"b\\\\c\\nd\\te\\r");
    let pairs = vec![(s("OS"), s("Arch \"x\"")), (s("Host"), s("box"))];
    assert_eq!(
        render_json(&pairs),
        vec![s("{"), s("  \"OS\": \"Arch \\\"x\\\"\","), s("  \"Host\": \"box\""), s("}")]
    );
    assert_eq!(render_json(&vec![]), vec![s("{"), s("}")]);
}

fn json_body_value(b: &str) -> Option<String> {
    let mut out = String::new();
    let mut it = b.chars();
    while let Some(c) = it.next() {
        match c {
            '\\' => match it.next()? {
                '"' => out.push('"'),
                '\\' => out.push('\\'),
                '/' => out.push('/'),
                'n' => out.push('\n'),
                'r' => out.push('\r'),
                't' => out.push('\t'),
                _ => return None,
            },
            '"' => return None,
            c if (c as u32) < 0x20 => return None,
            c => out.push(c),
        }
    }
    Some(out)
}

#[test]
fn json_escape_round_trip() {
    for s in ["plain", "quote \" and \\ back", "line\nnext\r\tend", "é▒ unicode", ""] {
        assert_eq!(json_body_value(&json_escape(s)), Some(s.to_string()));
    }
}

#[test]
fn json_member_stays_on_one_line() {
    let pairs = vec![(s("Media"), s("line one\nline two\r\tend"))];
    let lines = render_json(&pairs);
    assert_eq!(lines.len(), 3);
    for l in &lines {
        assert!(!l.contains('\n') && !l.contains('\r') && !l.contains('\t'));
    }
    assert_eq!(lines[1], "  \"Media\": \"line one\\nline two\\r\\tend\"");
}

#[test]
fn title_line() {
    assert_eq!(user_host(Some("ann"), Some("x"), None, Some("box")), "ann@box");
    assert_eq!(user_host(None, Some("bob"), None, None), "bob@host");
    assert_eq!(user_host(None, None, None, None), "user@host");
}

#[test]
fn information_lines() {
    let mut cfg = VaminfoConfig::default();
    cfg.show_separator = true;
    cfg.icons_enabled = false;
    let entries = vec![(s("OS"), s("Arch")), (s("Quote"), s("a\nb")), (s(""), s("x\ny"))];
    let lines = build_info_lines(&cfg, "me@box", &entries);
    let texts: Vec<Vec<String>> =
        lines.iter().map(|l| l.iter().map(|g| g.text.clone()).collect()).collect();
    assert_eq!(texts[0], vec![s("me@box")]);
    assert_eq!(texts[1], vec!["-".repeat(30)]);
    assert_eq!(texts[2], vec![s("OS           "), s(" : "), s("Arch")]);
    assert_eq!(texts[3], vec![s("Quote        "), s(" : "), s("a")]);
    assert_eq!(texts[4], vec![" ".repeat(16), s("b")]);
    assert_eq!(texts[5], Vec::<String>::new());
    assert_eq!(texts[6], vec![s("x")]);
    assert_eq!(texts[7], vec![s("y")]);
    assert_eq!(lines.len(), 8);
}

#[test]
fn information_lines_with_icons() {
    let mut cfg = VaminfoConfig::default();
    cfg.show_title = false;
    cfg.show_separator = false;
    cfg.icons_enabled = true;
    let entries = vec![(s("CPU"), s("x86")), (s("Quote"), s("a\nb")), (s("Mystery"), s("v"))];
    let lines = build_info_lines(&cfg, "me@box", &entries);
    let texts: Vec<Vec<String>> =
        lines.iter().map(|l| l.iter().map(|g| g.text.clone()).collect()).collect();
    assert_eq!(texts[0], vec![s("\u{f0ee0} CPU          "), s(" : "), s("x86")]);
    assert_eq!(texts[1], vec![format!("{} Quote        ", module_icon("Quote")), s(" : "), s("a")]);
    assert_eq!(texts[2], vec![" ".repeat(18), s("b")]);
    assert_eq!(texts[3], vec![format!("{} Mystery      ", module_icon("Mystery")), s(" : "), s("v")]);
    assert_eq!(lines.len(), 4);
}

#[test]
fn colour_names_and_painting() {
    assert_eq!(parse_color("RED"), ColorName::Red);
    assert_eq!(parse_color("Bright_Blue"), ColorName::BrightBlue);
    assert_eq!(parse_color("orange"), ColorName::White);
    colored::control::set_override(true);
    assert_eq!(render_segment(&seg(s("hi"), Paint::Fg(ColorName::Red))), "\x1b[31mhi\x1b[0m");
    assert_eq!(render_segment(&seg(s("hi"), Paint::Bg(ColorName::BrightBlack))), "\x1b[100mhi\x1b[0m");
    assert_eq!(render_segment(&seg(s("hi"), Paint::FgDimmed(ColorName::Cyan))), "\x1b[2;36mhi\x1b[0m");
    assert_eq!(render_segment(&seg(s("hi"), Paint::Dimmed)), "\x1b[2mhi\x1b[0m");
    let line = vec![seg(s("a"), Paint::Plain), seg(s("b"), Paint::FgBold(ColorName::Green))];
    assert_eq!(render_line(&line), "a\x1b[1;32mb\x1b[0m");
    assert_eq!(visible_len(&render_line(&line)), 2);
    let inner = s("a\x1b[0mb");
    assert_eq!(
        render_segment(&seg(inner.clone(), Paint::Fg(ColorName::Red))),
        "\x1b[31ma\x1b[0m\x1b[31mb\x1b[0m"
    );
    assert_eq!(
        render_segment(&seg(inner.clone(), Paint::FgBold(ColorName::Green))),
        "\x1b[1;32ma\x1b[0m\x1b[1;32mb\x1b[0m"
    );
    assert_eq!(visible_len(&render_segment(&seg(inner, Paint::Dimmed))), 2);
    colored::control::set_override(false);
    assert_eq!(render_segment(&seg(s("hi"), Paint::Fg(ColorName::Red))), "hi");
    colored::control::unset_override();
}

#[test]
fn greetings_on_dates() {
    let mut cfg = VaminfoConfig::default();
    cfg.greetings.birthday = s("07-15");
    assert!(!is_birthday_on(&cfg, 7, 15));
    cfg.greetings.enabled = true;
    assert!(is_birthday_on(&cfg, 7, 15));
    assert!(!is_birthday_on(&cfg, 7, 16));
    cfg.greetings.events = vec![
        GreetingEvent { date: s("12-25"), name: s("Xmas"), message: s("Merry") },
        GreetingEvent { date: s("01-01"), name: s("NY"), message: s("Happy") },
        GreetingEvent { date: s(" 12-25 "), name: s("Xmas2"), message: s("Again") },
    ];
    let evs = events_on(&cfg, 12, 25);
    assert_eq!(evs.iter().map(|e| e.name.clone()).collect::<Vec<_>>(), vec![s("Xmas"), s("Xmas2")]);
    assert_eq!(pad("ab"), format!("ab{}", " ".repeat(29)));
    assert_eq!(pad("é"), format!("é{}", " ".repeat(30)));
    assert_eq!(pad(&"x".repeat(40)), "x".repeat(31));
    let mixed = format!("a{}bc", "é".repeat(15));
    assert_eq!(pad(&mixed), format!("a{}", "é".repeat(15)));
    assert_eq!(birthday_frame_index(0), 0);
    assert_eq!(birthday_frame_index(899), 2);
    assert!(ends_animation(KeyPress::Enter));
    assert!(ends_animation(KeyPress::Char('Q')));
    assert!(!ends_animation(KeyPress::Char('x')));
    assert!(!ends_animation(KeyPress::Other));
    assert_eq!(birthday_user(None, Some("kim")), "kim");
    assert_eq!(birthday_user(None, None), "You");
}

#[test]
fn tips_by_seed() {
    assert_eq!(
        tip_for_seed(0),
        "Use `Ctrl+R` in bash/zsh to search your command history interactively."
    );
    assert_eq!(tip_for_seed(TIP_COUNT), tip_for_seed(0));
}

#[test]
fn event_greeting_page() {
    let cfg = VaminfoConfig::default();
    let ev = GreetingEvent { date: s("12-25"), name: s("Christmas"), message: s("Merry Christmas!") };
    let art = vec![s("/\\"), s("||")];
    let lines = greeting_lines(&cfg, &ev, &art);
    assert_eq!(lines.len(), 2 + 9);
    assert_eq!(lines[0][0].text, "/\\");
    assert_eq!(lines[3][0].text, "=".repeat(52));
    assert_eq!(lines[5][0].text, " ".repeat(18));
    assert_eq!(lines[5][1].text, "MERRY CHRISTMAS!");
    assert_eq!(lines[7][0].text, "  Christmas");
    assert!(lines[10].is_empty());
}
