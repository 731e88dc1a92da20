use vaminfo::cli::{parse_command, print_help, print_tip, Command};
use vaminfo::config::{GreetingEvent, VaminfoConfig};
use vaminfo::modules::{collect_all, module_entries, ModuleKind};
use vaminfo::style::{Paint, Segment};
use vaminfo::wizard::{
    add_event, art_files, art_is_blank, art_text, color_choice, color_field, confirms,
    custom_art_name, delete_art_choice, delete_event, display_choice, event_date, greetings_action,
    is_end_marker, main_action, manage_action, pick_color, select_art, set_birthday, set_color, set_separator,
    strip_line_ending, toggle_greetings, toggle_mini, toggle_module, ArtDeletion, ArtSelection,
    ColorField, EventDeletion, GreetingsAction, MainAction, ManageAction, MenuStep,
};

fn s(x: &str) -> String {
    x.to_string()
}

fn texts(line: &Vec<Segment>) -> Vec<String> {
    line.iter().map(|g| g.text.clone()).collect()
}

#[test]
fn main_menu_answers() {
    assert_eq!(main_action("1"), MainAction::AsciiSelect);
    assert_eq!(main_action("4"), MainAction::Modules);
    assert_eq!(main_action("6"), MainAction::ToggleMini);
    assert_eq!(main_action("9"), MainAction::Preview);
    assert_eq!(main_action("S"), MainAction::SaveAndExit);
    assert_eq!(main_action("q"), MainAction::Quit);
    assert_eq!(main_action("Q"), MainAction::Quit);
    assert_eq!(main_action("10"), MainAction::Invalid);
    assert_eq!(main_action(""), MainAction::Invalid);
}

#[test]
fn art_menu_answers() {
    assert_eq!(manage_action("1"), ManageAction::AddArt);
    assert_eq!(manage_action("2"), ManageAction::DeleteArt);
    assert_eq!(manage_action("3"), ManageAction::Back);
    assert_eq!(manage_action("4"), ManageAction::Invalid);
}

#[test]
fn mini_and_separator() {
    let mut cfg = VaminfoConfig::default();
    toggle_mini(&mut cfg);
    assert!(cfg.mini_mode);
    toggle_mini(&mut cfg);
    assert!(!cfg.mini_mode);
    set_separator(&mut cfg, "");
    assert_eq!(cfg.separator, "-");
    set_separator(&mut cfg, "=~");
    assert_eq!(cfg.separator, "=~");
}

#[test]
fn display_options() {
    let mut cfg = VaminfoConfig::default();
    assert_eq!(display_choice(&mut cfg, "1"), MenuStep::Stay);
    assert!(!cfg.show_title);
    assert_eq!(display_choice(&mut cfg, "2"), MenuStep::Stay);
    assert!(!cfg.show_separator);
    assert_eq!(display_choice(&mut cfg, "3"), MenuStep::Back);
    assert_eq!(display_choice(&mut cfg, "x"), MenuStep::Invalid);
    assert!(!cfg.show_title && !cfg.show_separator);
}

#[test]
fn greetings_menu() {
    assert_eq!(greetings_action("1"), GreetingsAction::Toggle);
    assert_eq!(greetings_action("2"), GreetingsAction::SetBirthday);
    assert_eq!(greetings_action("3"), GreetingsAction::AddEvent);
    assert_eq!(greetings_action("4"), GreetingsAction::ListEvents);
    assert_eq!(greetings_action("5"), GreetingsAction::Back);
    assert_eq!(greetings_action("6"), GreetingsAction::Invalid);
    let mut cfg = VaminfoConfig::default();
    toggle_greetings(&mut cfg);
    assert!(cfg.greetings.enabled);
    set_birthday(&mut cfg, "  07-15 ");
    assert_eq!(cfg.greetings.birthday, "07-15");
    set_birthday(&mut cfg, "   ");
    assert_eq!(cfg.greetings.birthday, "");
}

#[test]
fn events_add_and_delete() {
    let mut cfg = VaminfoConfig::default();
    assert_eq!(event_date("   "), None);
    let d = event_date(" 12-25 ").unwrap();
    assert_eq!(d, "12-25");
    add_event(&mut cfg, d, " Christmas ", " Merry Christmas! ");
    add_event(&mut cfg, s("01-01"), "New Year", "Happy New Year");
    assert_eq!(cfg.greetings.events.len(), 2);
    assert_eq!(cfg.greetings.events[0].name, "Christmas");
    assert_eq!(cfg.greetings.events[0].message, "Merry Christmas!");
    assert_eq!(delete_event(&mut cfg, "abc"), EventDeletion::NotANumber);
    assert_eq!(delete_event(&mut cfg, ""), EventDeletion::NotANumber);
    assert_eq!(delete_event(&mut cfg, "0"), EventDeletion::OutOfRange);
    assert_eq!(delete_event(&mut cfg, "3"), EventDeletion::OutOfRange);
    assert_eq!(cfg.greetings.events.len(), 2);
    assert_eq!(delete_event(&mut cfg, " 2 "), EventDeletion::Deleted);
    assert_eq!(cfg.greetings.events.len(), 1);
    assert_eq!(cfg.greetings.events[0].date, "12-25");
}

#[test]
fn deleting_the_added_event_restores_the_list() {
    let mut cfg = VaminfoConfig::default();
    cfg.greetings.events.push(GreetingEvent { date: s("03-08"), name: s("A"), message: s("B") });
    add_event(&mut cfg, s("04-01"), "Fools", "Ha");
    assert_eq!(delete_event(&mut cfg, "2"), EventDeletion::Deleted);
    assert_eq!(cfg.greetings.events.len(), 1);
    assert_eq!(cfg.greetings.events[0].date, "03-08");
}

#[test]
fn colours() {
    assert_eq!(color_choice("1"), Some("black"));
    assert_eq!(color_choice("16"), Some("bright_white"));
    assert_eq!(color_choice("17"), None);
    assert_eq!(color_choice("0"), None);
    assert_eq!(color_choice("red"), None);
    assert_eq!(pick_color("blue", ""), "blue");
    assert_eq!(pick_color("blue", "2"), "red");
    assert_eq!(pick_color("blue", "99"), "blue");
    assert_eq!(color_field("1"), ColorField::Ascii);
    assert_eq!(color_field("4"), ColorField::Value);
    assert_eq!(color_field("5"), ColorField::Back);
    assert_eq!(color_field("9"), ColorField::Invalid);
    let mut cfg = VaminfoConfig::default();
    set_color(&mut cfg, ColorField::Title, s("green"));
    set_color(&mut cfg, ColorField::Back, s("red"));
    assert_eq!(cfg.title_color, "green");
    assert_eq!(cfg.ascii_color, "blue");
}

#[test]
fn module_toggles() {
    let mut cfg = VaminfoConfig::default();
    let before = cfg.modules;
    assert!(cfg.modules.hostname);
    assert_eq!(toggle_module(&mut cfg, "1"), MenuStep::Stay);
    assert!(!cfg.modules.hostname);
    assert_eq!(toggle_module(&mut cfg, "23"), MenuStep::Stay);
    assert_eq!(cfg.modules.public_ip, !before.public_ip);
    assert_eq!(toggle_module(&mut cfg, "34"), MenuStep::Stay);
    assert_eq!(cfg.modules.color_blocks_small, !before.color_blocks_small);
    assert_eq!(toggle_module(&mut cfg, "27"), MenuStep::Stay);
    assert_eq!(cfg.modules.vamorasys_version, !before.vamorasys_version);
    assert_eq!(toggle_module(&mut cfg, "0"), MenuStep::Back);
    assert_eq!(toggle_module(&mut cfg, "39"), MenuStep::Invalid);
    assert_eq!(toggle_module(&mut cfg, "01"), MenuStep::Invalid);
    assert_eq!(toggle_module(&mut cfg, "+1"), MenuStep::Invalid);
    assert_eq!(cfg.modules.swap, before.swap);
    assert_eq!(toggle_module(&mut cfg, "35"), MenuStep::Stay);
    assert_eq!(cfg.modules.packages, !before.packages);
    assert_eq!(toggle_module(&mut cfg, "36"), MenuStep::Stay);
    assert_eq!(cfg.modules.swap, !before.swap);
    assert_eq!(toggle_module(&mut cfg, "37"), MenuStep::Stay);
    assert_eq!(cfg.modules.load_average, !before.load_average);
    assert_eq!(toggle_module(&mut cfg, "38"), MenuStep::Stay);
    assert_eq!(cfg.modules.temperature, !before.temperature);
}

#[test]
fn every_module_has_a_toggle() {
    let base = VaminfoConfig::default();
    let mut hit = vec![false; vaminfo::config::MODULE_COUNT];
    for n in 1..=38 {
        let mut cfg = base.clone();
        assert_eq!(toggle_module(&mut cfg, &n.to_string()), MenuStep::Stay);
        let changed: Vec<usize> = (0..vaminfo::config::MODULE_COUNT)
            .filter(|&i| cfg.modules.get_flag(i) != base.modules.get_flag(i))
            .collect();
        assert_eq!(changed.len(), 1);
        hit[changed[0]] = true;
    }
    assert!(hit.iter().all(|&h| h));
}

#[test]
fn toggling_twice_restores() {
    let mut cfg = VaminfoConfig::default();
    let before = cfg.clone();
    for n in 1..=38 {
        let a = n.to_string();
        toggle_module(&mut cfg, &a);
        toggle_module(&mut cfg, &a);
    }
    let flags = |c: &VaminfoConfig| {
        (0..38).map(|i| c.modules.get_flag(i)).collect::<Vec<bool>>()
    };
    assert_eq!(flags(&cfg), flags(&before));
}

#[test]
fn every_toggle_entry_switches_its_own_module() {
    let mut seen = Vec::new();
    for n in 1..=38 {
        let mut cfg = VaminfoConfig::default();
        let before = cfg.clone();
        toggle_module(&mut cfg, &n.to_string());
        let changed: Vec<usize> =
            (0..38).filter(|&i| cfg.modules.get_flag(i) != before.modules.get_flag(i)).collect();
        assert_eq!(changed.len(), 1);
        assert!(!seen.contains(&changed[0]));
        seen.push(changed[0]);
    }
}

#[test]
fn art_selection() {
    let files = vec![s("ascii1.vtxt"), s("custom1.vtxt")];
    let mut cfg = VaminfoConfig::default();
    assert_eq!(select_art(&mut cfg, &files, ""), ArtSelection::Keep);
    assert_eq!(select_art(&mut cfg, &files, "2"), ArtSelection::Selected);
    assert_eq!(cfg.ascii_file, "custom1.vtxt");
    assert_eq!(select_art(&mut cfg, &files, "3"), ArtSelection::Invalid);
    assert_eq!(select_art(&mut cfg, &files, "x"), ArtSelection::Invalid);
    assert_eq!(cfg.ascii_file, "custom1.vtxt");
    assert_eq!(select_art(&mut cfg, &files, "0"), ArtSelection::Default);
    assert_eq!(cfg.ascii_file, "ascii1.vtxt");
}

#[test]
fn art_files_and_pasting() {
    assert_eq!(custom_art_name(3), "custom3.vtxt");
    assert!(is_end_marker("  END "));
    assert!(!is_end_marker("END."));
    assert!(art_is_blank(&vec![]));
    assert!(art_is_blank(&vec![s("  "), s("")]));
    assert!(!art_is_blank(&vec![s("  "), s("x")]));
    assert_eq!(art_text(&vec![s("a"), s(""), s("b")]), "a\n\nb");
    assert_eq!(strip_line_ending("abc\r\n"), "abc");
    assert_eq!(strip_line_ending("abc\n"), "abc");
    assert_eq!(strip_line_ending("abc\r"), "abc");
    assert_eq!(strip_line_ending("abc\n\n"), "abc\n");
    let names = vec![s("zeta.vtxt"), s("notes.txt"), s("Alpha.vtxt"), s("ascii1.vtxt"), s(".vtxt")];
    assert_eq!(art_files(&names), vec![s(".vtxt"), s("Alpha.vtxt"), s("ascii1.vtxt"), s("zeta.vtxt")]);
    assert_eq!(art_files(&vec![]), Vec::<String>::new());
}

#[test]
fn art_deletion() {
    let files = vec![s("ascii1.vtxt"), s("custom1.vtxt")];
    assert!(matches!(delete_art_choice(&files, "0"), ArtDeletion::Cancel));
    assert!(matches!(delete_art_choice(&files, "1"), ArtDeletion::Protected));
    match delete_art_choice(&files, "2") {
        ArtDeletion::Confirm(name) => assert_eq!(name, "custom1.vtxt"),
        _ => panic!("expected a file to confirm"),
    }
    assert!(matches!(delete_art_choice(&files, "3"), ArtDeletion::Invalid));
    assert!(matches!(delete_art_choice(&files, "y"), ArtDeletion::Invalid));
    assert!(confirms("Y"));
    assert!(confirms("y"));
    assert!(!confirms("yes"));
    assert!(!confirms(""));
}

#[test]
fn commands() {
    assert_eq!(parse_command(None), Command::Fetch);
    assert_eq!(parse_command(Some("config")), Command::Wizard);
    assert_eq!(parse_command(Some("--config")), Command::Wizard);
    assert_eq!(parse_command(Some("--mini")), Command::Mini);
    assert_eq!(parse_command(Some("--json")), Command::Json);
    assert_eq!(parse_command(Some("--tip")), Command::Tip);
    assert_eq!(parse_command(Some("--debug")), Command::Debug);
    assert_eq!(parse_command(Some("-h")), Command::Help);
    assert_eq!(parse_command(Some("--help")), Command::Help);
    assert_eq!(parse_command(Some("-v")), Command::Version);
    assert_eq!(parse_command(Some("--version")), Command::Version);
    assert_eq!(parse_command(Some("--frob")), Command::Unknown);
}

#[test]
fn help_page() {
    let cfg = VaminfoConfig::default();
    let lines = print_help(&cfg, "/home/u/.VamoraSys/apps/vaminfo/config.vmf", "/home/u/.VamoraSys/apps/vaminfo/ascii");
    assert_eq!(lines.len(), 5 + 19);
    assert_eq!(texts(&lines[5]), vec![s("USAGE:")]);
    assert_eq!(lines[5][0].paint, Paint::FgBold(vaminfo::style::ColorName::BrightBlue));
    assert_eq!(texts(&lines[9]), vec![s("    "), s("(none)"), s("        Display system information")]);
    assert_eq!(lines[9][1].paint, Paint::Fg(vaminfo::style::ColorName::Blue));
    assert_eq!(texts(&lines[19]), vec![s("    /home/u/.VamoraSys/apps/vaminfo/config.vmf")]);
    assert_eq!(texts(&lines[22]), vec![s("    /home/u/.VamoraSys/apps/vaminfo/ascii/*.vtxt")]);
    assert!(lines[23].is_empty());
}

#[test]
fn tip_page() {
    let cfg = VaminfoConfig::default();
    let lines = print_tip(&cfg);
    assert_eq!(lines.len(), 7);
    assert!(lines[5][0].text.starts_with("  "));
    assert!(lines[6].is_empty());
}

#[test]
fn collected_entries() {
    let kinds = vec![ModuleKind::Os, ModuleKind::ColorBlocksBig, ModuleKind::Ram, ModuleKind::Hostname];
    let values = vec![Some(s("Arch")), Some(s("blocks")), None, Some(s("box"))];
    assert_eq!(
        module_entries(&kinds, &values, false),
        vec![(s("OS"), s("Arch")), (s(""), s("blocks")), (s("Host"), s("box"))]
    );
    assert_eq!(collect_all(&kinds, &values), vec![(s("OS"), s("Arch")), (s("Host"), s("box"))]);
}
