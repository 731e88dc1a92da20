use vaminfo::modules::birthday_countdown::{countdown, BirthdayCountdownModule};
use vaminfo::modules::color_blocks::{ColorBlocksBig, ColorBlocksSmall};
use vaminfo::modules::disk::{fmt_bytes as disk_bytes, DiskInfo, DiskModule};
use vaminfo::modules::media::MediaModule;
use vaminfo::modules::network::{fmt_bytes as net_bytes, NetInfo, NetworkModule};
use vaminfo::modules::os_info::{OsModule, OsSources};
use vaminfo::modules::packages::{PackageSources, PackagesModule};
use vaminfo::modules::quotes::{quote_for, word_wrap, QuotesModule};
use vaminfo::modules::ram::{fmt_bytes as mem_bytes, RamModule, GIB, MIB};
use vaminfo::modules::resolution::{ResolutionAction, ResolutionModule, ResolutionReading, ResolutionSource};
use vaminfo::modules::swap::SwapModule;
use vaminfo::modules::sys_age::{birth_time_from_stat, SysAgeModule};
use vaminfo::modules::terminal::{detect_inner_term, TermEnv, TerminalModule};
use vaminfo::modules::theme::{read_gtk_theme, read_kde_scheme, ThemeModule, ThemeSources};
use vaminfo::config::VaminfoConfig;

fn s(x: &str) -> String {
    x.to_string()
}

fn some(x: &str) -> Option<String> {
    Some(x.to_string())
}

#[test]
fn more_module_titles() {
    assert_eq!(BirthdayCountdownModule.name(), "Birthday");
    assert_eq!(ColorBlocksBig.name(), "");
    assert_eq!(ColorBlocksSmall.name(), "");
    assert_eq!(DiskModule.name(), "Disk");
    assert_eq!(MediaModule.name(), "Media");
    assert_eq!(NetworkModule.name(), "Network");
    assert_eq!(OsModule.name(), "OS");
    assert_eq!(PackagesModule.name(), "Packages");
    assert_eq!(QuotesModule.name(), "Quote");
    assert_eq!(RamModule.name(), "RAM");
    assert_eq!(ResolutionModule.name(), "Resolution");
    assert_eq!(SwapModule.name(), "Swap");
    assert_eq!(SysAgeModule.name(), "System Age");
    assert_eq!(TerminalModule.name(), "Terminal");
    assert_eq!(ThemeModule.name(), "Theme");
}

#[test]
fn word_wrap_examples() {
    assert_eq!(word_wrap("a bb ccc", 4), vec![s("a bb"), s("ccc")]);
    assert_eq!(word_wrap("", 10), Vec::<String>::new());
    assert_eq!(word_wrap("  averyverylongword x  ", 5), vec![s("averyverylongword"), s("x")]);
    assert_eq!(word_wrap("é é", 5), vec![s("é é")]);
    assert_eq!(word_wrap("é é", 4), vec![s("é"), s("é")]);
}

#[test]
fn wrap_keeps_words_on_concrete_text() {
    let text = "Data dominates. If you've chosen the right data structures and organized things well.";
    for width in [1usize, 5, 10, 58, 200] {
        let lines = word_wrap(text, width);
        let words: Vec<&str> = text.split_whitespace().collect();
        assert_eq!(lines.join(" "), words.join(" "));
        for l in &lines {
            assert!(l.len() <= width || words.contains(&l.as_str()));
        }
    }
}

#[test]
fn quotes_shown() {
    assert_eq!(quote_for(0), "\"Talk is cheap. Show me the code.\"\n  -- Linus Torvalds");
    assert_eq!(
        quote_for(3),
        "\"Data dominates. If you've chosen the right data structures\nand organized things well, the algorithms will almost\nalways be self-evident.\"\n  -- Rob Pike"
    );
    let q = QuotesModule.collect().unwrap();
    assert!(q.starts_with('"'));
    assert!(q.contains("\"\n  -- "));
}

#[test]
fn memory_formats() {
    assert_eq!(mem_bytes(512 * MIB), "512 MiB");
    assert_eq!(mem_bytes(1536 * MIB), "1.50 GiB");
    assert_eq!(mem_bytes(GIB), "1.00 GiB");
    assert_eq!(mem_bytes(MIB / 2), "0 MiB");
    assert_eq!(mem_bytes(MIB + MIB / 2), "2 MiB");
    assert_eq!(RamModule.collect(512 * MIB, 2 * GIB, "25.0"), some("512 MiB / 2.00 GiB (25.0%)"));
    assert_eq!(RamModule.collect(0, 0, "0.0"), some("0 MiB / 0 MiB (0.0%)"));
    assert_eq!(
        RamModule.collect(23 * MIB, 80 * MIB, &format!("{:.1}", 23.0f64 / 80.0 * 100.0)),
        some("23 MiB / 80 MiB (28.7%)")
    );
    assert_eq!(SwapModule.collect(0, 0, "0.0"), some("disabled"));
    assert_eq!(SwapModule.collect(GIB, 4 * GIB, "25.0"), some("1.00 GiB / 4.00 GiB (25.0%)"));
}

#[test]
fn disk_entries() {
    assert_eq!(disk_bytes(100 * GIB), "100.0 GiB");
    assert_eq!(disk_bytes(300 * MIB), "300 MiB");
    let disks = vec![
        DiskInfo { mount: s("/"), total: 100 * GIB, available: 25 * GIB, percent: s("75.0") },
        DiskInfo { mount: s("/boot"), total: GIB, available: 0, percent: s("100.0") },
        DiskInfo { mount: s("/home"), total: 500 * MIB, available: 600 * MIB, percent: s("0.0") },
    ];
    assert_eq!(
        DiskModule.collect(&disks),
        some("/: 75.0 GiB / 100.0 GiB (75.0%)  |  /home: 0 MiB / 500 MiB (0.0%)")
    );
    assert_eq!(DiskModule.collect(&vec![DiskInfo { mount: s("/mnt"), total: 1, available: 0, percent: s("100.0") }]), None);
}

#[test]
fn network_entries() {
    assert_eq!(net_bytes(1536), "2K");
    assert_eq!(net_bytes(512), "0K");
    assert_eq!(net_bytes(2 * MIB), "2.0M");
    assert_eq!(net_bytes(3 * GIB), "3.0G");
    let n = |name: &str, rx: u64, tx: u64| NetInfo { name: s(name), received: rx, transmitted: tx };
    let ifaces = vec![
        n("lo", 1, 1),
        n("eth0", 1536, 2 * MIB),
        n("docker0", 5, 5),
        n("br-123", 5, 5),
        n("wlan0", 3 * GIB, 512),
        n("eth1", 0, 0),
        n("eth2", 0, 0),
    ];
    assert_eq!(
        NetworkModule.collect(&ifaces),
        some("eth0: ↓2K ↑2.0M  |  wlan0: ↓3.0G ↑0K  |  eth1: ↓0K ↑0K")
    );
    assert_eq!(NetworkModule.collect(&vec![n("lo", 1, 1)]), None);
}

#[test]
fn os_text() {
    let src = OsSources {
        arch: some("x86_64"),
        release: some("PRETTY_NAME=\"VamoraOS 1.0\"\n"),
        android: true,
        android_release: some("14"),
        name: some("Arch Linux"),
        version: None,
    };
    assert_eq!(OsModule.collect(&src), some("VamoraOS 1.0 x86_64"));
    let src = OsSources {
        arch: some("aarch64"),
        release: None,
        android: true,
        android_release: None,
        name: None,
        version: None,
    };
    assert_eq!(OsModule.collect(&src), some("Android ? aarch64"));
    let src = OsSources {
        arch: some("x86_64"),
        release: some("PRETTY_NAME=\n"),
        android: false,
        android_release: None,
        name: some("Arch Linux"),
        version: None,
    };
    assert_eq!(OsModule.collect(&src), some("Arch Linux x86_64"));
    let src = OsSources {
        arch: None,
        release: None,
        android: false,
        android_release: None,
        name: None,
        version: some("22.04"),
    };
    assert_eq!(OsModule.collect(&src), some("Unknown 22.04 unknown"));
}

#[test]
fn package_counts() {
    let p = PackagesModule;
    let src = PackageSources {
        dpkg_status: some(
            "Package: a\nStatus: install ok installed\n\nPackage: b\nStatus: deinstall ok config-files\nStatus: install ok installed\n",
        ),
        pacman_dirs: Some(9),
        apk_installed: None,
        xbps_files: None,
    };
    assert_eq!(p.collect(&src), some("dpkg: 2"));
    let src = PackageSources {
        dpkg_status: some("nothing\n"),
        pacman_dirs: Some(0),
        apk_installed: some("P:musl\nV:1\nP:busybox\n"),
        xbps_files: None,
    };
    assert_eq!(p.collect(&src), some("apk: 2"));
    let src = PackageSources {
        dpkg_status: None,
        pacman_dirs: Some(12),
        apk_installed: None,
        xbps_files: None,
    };
    assert_eq!(p.collect(&src), some("pacman: 12"));
    let src = PackageSources {
        dpkg_status: None,
        pacman_dirs: None,
        apk_installed: None,
        xbps_files: Some(vec![s("a.plist"), s(".plist"), s("b.txt"), s("c.plist")]),
    };
    assert_eq!(p.collect(&src), some("xbps: 2"));
    let src = PackageSources { dpkg_status: None, pacman_dirs: None, apk_installed: None, xbps_files: None };
    assert_eq!(p.collect(&src), None);
    assert_eq!(p.rpm_text(&b"...".to_vec()), some("rpm: 3"));
    assert_eq!(p.rpm_text(&Vec::new()), None);
}

#[test]
fn terminal_detection() {
    let base = || TermEnv {
        tilix_id: false,
        konsole_version: false,
        kitty_window_id: None,
        alacritty_socket: false,
        alacritty_log: false,
        wezterm_executable: None,
        tmux: false,
        term_program: None,
        terminal: None,
        term: None,
    };
    let t = TerminalModule;
    let mut e = base();
    e.tilix_id = true;
    e.konsole_version = true;
    assert_eq!(t.collect(&e), some("Tilix"));
    let mut e = base();
    e.kitty_window_id = some("");
    e.alacritty_log = true;
    assert_eq!(t.collect(&e), some("Alacritty"));
    let mut e = base();
    e.kitty_window_id = some("1");
    assert_eq!(t.collect(&e), some("Kitty"));
    let mut e = base();
    e.wezterm_executable = some("/usr/bin/wezterm");
    assert_eq!(t.collect(&e), some("WezTerm"));
    let mut e = base();
    e.tmux = true;
    e.term_program = some("vscode");
    assert_eq!(t.collect(&e), some("tmux (vscode)"));
    let mut e = base();
    e.tmux = true;
    assert_eq!(t.collect(&e), some("tmux (unknown)"));
    assert_eq!(detect_inner_term(&e), "unknown");
    let mut e = base();
    e.term_program = some("iTerm.app");
    assert_eq!(t.collect(&e), some("iTerm2"));
    let mut e = base();
    e.term_program = some("ghostty");
    assert_eq!(t.collect(&e), some("ghostty"));
    let mut e = base();
    e.terminal = some("/usr/bin/alacritty");
    assert_eq!(t.collect(&e), some("alacritty"));
    let mut e = base();
    e.term = some("xterm-256color");
    assert_eq!(t.collect(&e), some("xterm"));
    let mut e = base();
    e.term = some("screen");
    assert_eq!(t.collect(&e), some("GNU Screen"));
    assert_eq!(t.collect(&base()), some("Vamora Terminal"));
}

#[test]
fn theme_sources() {
    let base = || ThemeSources { gtk_theme_env: None, gtk4: None, gtk3: None, gtk2: None, kdeglobals: None };
    let t = ThemeModule;
    let mut src = base();
    src.gtk_theme_env = some(" Adwaita-dark ");
    src.gtk4 = some("gtk-theme-name=Other\n");
    assert_eq!(t.collect(&src), some("Adwaita-dark"));
    let mut src = base();
    src.gtk_theme_env = some("  ");
    src.gtk4 = some("[Settings]\ngtk-theme-name=\"Breeze\"\n");
    assert_eq!(t.collect(&src), some("Breeze"));
    let mut src = base();
    src.gtk3 = some("[Settings]\ngtk-icon-theme-name=x\n");
    src.gtk2 = some("gtk-theme-name = \"Arc-Dark\"\n");
    assert_eq!(t.collect(&src), some("Arc-Dark"));
    let mut src = base();
    src.kdeglobals = some("[Icons]\nColorScheme=No\n[General]\nColorScheme=BreezeDark\n");
    assert_eq!(t.collect(&src), some("BreezeDark (KDE)"));
    assert_eq!(t.collect(&base()), None);
    assert_eq!(read_gtk_theme("gtk-theme-name=\"\"\ngtk-theme-name=Next\n"), some("Next"));
    assert_eq!(read_kde_scheme("[General]\n[KDE]\nColorScheme=X\n"), None);
    assert_eq!(read_kde_scheme("[General]\nColorScheme=  \nColorScheme=Y\n"), some("Y (KDE)"));
}

#[test]
fn resolution_sources() {
    let r = ResolutionModule;
    let xr = "Screen 0: minimum 320 x 200\neDP-1 connected primary 1920x1080+0+0 (normal) 344mm x 194mm\n";
    assert_eq!(r.from_xrandr(xr), some("1920x1080"));
    assert_eq!(r.from_xrandr("HDMI-1 disconnected 1920x1080+0+0\n"), None);
    let modes = vec![some("1920x1080\n1280x720\n"), None, some(" 1920x1080 \n"), some("2560x1440"), some("\n")];
    assert_eq!(r.from_drm(&modes), some("1920x1080  |  2560x1440"));
    assert_eq!(r.from_drm(&vec![None, some("")]), None);
    let wlr = "DP-1 \"Dell\"\n  Modes:\n    1280x720 px, 60.000000 Hz\n    1920x1080 px, 60.000000 Hz (preferred, current)\n";
    assert_eq!(r.from_wlr(wlr), some("1920x1080"));
    assert_eq!(r.from_wlr("  Mode: 800x600\n"), some("800x600"));
    assert_eq!(r.from_wlr("nothing\n"), None);
}

fn done(a: ResolutionAction) -> Option<Option<String>> {
    match a {
        ResolutionAction::Done(v) => Some(v),
        ResolutionAction::Ask(_) => None,
    }
}

fn asks(a: &ResolutionAction) -> Option<ResolutionSource> {
    match a {
        ResolutionAction::Ask(s) => Some(*s),
        ResolutionAction::Done(_) => None,
    }
}

#[test]
fn resolution_source_order() {
    let r = ResolutionModule;
    assert_eq!(r.first_source(), ResolutionSource::Xrandr);
    let xr = "eDP-1 connected primary 1920x1080+0+0\n";
    assert_eq!(done(r.resolution_step(&ResolutionReading::Xrandr(some(xr)))), Some(some("1920x1080")));
    assert_eq!(asks(&r.resolution_step(&ResolutionReading::Xrandr(None))), Some(ResolutionSource::Drm));
    assert_eq!(asks(&r.resolution_step(&ResolutionReading::Xrandr(some("nothing")))), Some(ResolutionSource::Drm));
    let modes = vec![some("2560x1440\n")];
    assert_eq!(done(r.resolution_step(&ResolutionReading::Drm(Some(modes)))), Some(some("2560x1440")));
    assert_eq!(asks(&r.resolution_step(&ResolutionReading::Drm(None))), Some(ResolutionSource::Wlr));
    assert_eq!(asks(&r.resolution_step(&ResolutionReading::Drm(Some(vec![None])))), Some(ResolutionSource::Wlr));
    assert_eq!(done(r.resolution_step(&ResolutionReading::Wlr(some("  Mode: 800x600\n")))), Some(some("800x600")));
    assert_eq!(done(r.resolution_step(&ResolutionReading::Wlr(some("x")))), Some(None));
    assert_eq!(done(r.resolution_step(&ResolutionReading::Wlr(None))), Some(None));
}

#[test]
fn media_sources() {
    let m = MediaModule;
    assert_eq!(m.collect(&some(" Artist - Title \n"), &None, &None), some("Artist - Title"));
    assert_eq!(m.collect(&some("  "), &some("Song\n"), &None), some("Song"));
    let dbus = "method return\n   dict entry( string \"xesam:title\" variant string \"My Song\" )\n";
    assert_eq!(m.collect(&None, &None, &some(dbus)), some("My Song"));
    assert_eq!(m.collect(&None, &None, &some("xesam:title no quotes\n")), None);
    assert_eq!(m.collect(&None, &None, &None), None);
    let uncuttable = "\"xesam:title\n";
    assert_eq!(m.collect(&some("A - B"), &None, &some(uncuttable)), some("A - B"));
    assert_eq!(m.collect(&None, &some("Only"), &some(uncuttable)), some("Only"));
}

#[test]
fn system_age() {
    assert_eq!(birth_time_from_stat("1700000000\n"), Some(1700000000));
    assert_eq!(birth_time_from_stat("0\n"), None);
    assert_eq!(birth_time_from_stat("-\n"), None);
    let a = SysAgeModule;
    assert_eq!(
        a.age_at(1_000_000_000, 1_000_000_000 + 400 * 86400),
        some("1y 35d (since 2001-09-09)")
    );
    assert_eq!(a.age_at(86400 * 10, 86400 * 20), some("10d (since 1970-01-11)"));
    assert_eq!(a.age_at(0, 100), None);
    assert_eq!(a.age_at(200, 100), None);
    assert_eq!(a.collect(None), None);
    assert!(a.collect(Some(86400)).unwrap().ends_with("(since 1970-01-02)"));
}

#[test]
fn birthday_countdown_values() {
    assert_eq!(countdown("07-15", 2024, 7, 15), some("Today! Happy Birthday!"));
    assert_eq!(countdown("07-15", 2024, 7, 14), some("Tomorrow!"));
    assert_eq!(countdown("07-15", 2024, 7, 10), some("in 5 days (07-15)"));
    assert_eq!(countdown(" 7-15 ", 2024, 7, 10), some("in 5 days (7-15)"));
    assert_eq!(countdown("07-15", 2024, 7, 16), some("in 364 days (07-15)"));
    assert_eq!(countdown("", 2024, 7, 16), None);
    assert_eq!(countdown("13-01", 2024, 7, 16), None);
    assert_eq!(countdown("1-2-3", 2024, 7, 16), None);
    let mut cfg = VaminfoConfig::default();
    assert_eq!(BirthdayCountdownModule.collect(&cfg), None);
    cfg.greetings.birthday = s("xx");
    assert_eq!(BirthdayCountdownModule.collect(&cfg), None);
    cfg.greetings.birthday = s("01-01");
    assert!(BirthdayCountdownModule.collect(&cfg).is_some());
}

#[test]
fn color_blocks_rows() {
    colored::control::set_override(false);
    let big = ColorBlocksBig.collect().unwrap();
    assert_eq!(big, format!("{}\n{}", " ".repeat(32), " ".repeat(32)));
    let small = ColorBlocksSmall.collect().unwrap();
    assert_eq!(small, format!("{}\n{}", " ".repeat(16), " ".repeat(16)));
    colored::control::set_override(true);
    let small = ColorBlocksSmall.collect().unwrap();
    let mut row1 = String::new();
    for code in 40..48 {
        row1.push_str(&format!("\x1b[{}m  \x1b[0m", code));
    }
    let mut row2 = String::new();
    for code in 100..108 {
        row2.push_str(&format!("\x1b[{}m  \x1b[0m", code));
    }
    assert_eq!(small, format!("{}\n{}", row1, row2));
    colored::control::unset_override();
}
