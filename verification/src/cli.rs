//! The command line: what the first argument asks for, and the help and tip
//! pages.

use vstd::prelude::*;
use crate::config::VaminfoConfig;
use crate::renderer::{color_spec, empty_line, line_of, page_title_spec, print_page_title, push_line, SegV};
use crate::style::{parse_color, seg, seg_lines_views, seg_views, ColorName, Paint, Segment};
use crate::text::{concat3, owned, str_eq};
use crate::tips::{random_tip, tip_text, TIP_COUNT};

verus! {

/// What the command line asks for.
#[derive(Debug, Clone, Copy, PartialEq, Eq, Structural)]
pub enum Command {
    /// No argument: greetings, then the system information.
    Fetch,
    /// `config` or `--config`: the configuration wizard.
    Wizard,
    /// `--mini`: the mini box.
    Mini,
    /// `--json`: the information as JSON.
    Json,
    /// `--tip`: a Linux tip.
    Tip,
    /// `--debug`: paths and configuration, then the information.
    Debug,
    /// `--help` or `-h`.
    Help,
    /// `--version` or `-v`.
    Version,
    /// Anything else, which is an error.
    Unknown,
}

/// The command the first argument (`None` when there is none) asks for.
pub open spec fn command_of(arg: Option<Seq<char>>) -> Command {
    match arg {
        None => Command::Fetch,
        Some(a) => if a == "config"@ || a == "--config"@ {
            Command::Wizard
        } else if a == "--mini"@ {
            Command::Mini
        } else if a == "--json"@ {
            Command::Json
        } else if a == "--tip"@ {
            Command::Tip
        } else if a == "--debug"@ {
            Command::Debug
        } else if a == "--help"@ || a == "-h"@ {
            Command::Help
        } else if a == "--version"@ || a == "-v"@ {
            Command::Version
        } else {
            Command::Unknown
        },
    }
}

/// The command the first argument asks for.
pub fn parse_command(arg: Option<&str>) -> (r: Command)
    ensures
        r == command_of(crate::text::opt_slice(arg)),
{
    match arg {
        None => Command::Fetch,
        Some(a) => if str_eq(a, "config") || str_eq(a, "--config") {
            Command::Wizard
        } else if str_eq(a, "--mini") {
            Command::Mini
        } else if str_eq(a, "--json") {
            Command::Json
        } else if str_eq(a, "--tip") {
            Command::Tip
        } else if str_eq(a, "--debug") {
            Command::Debug
        } else if str_eq(a, "--help") || str_eq(a, "-h") {
            Command::Help
        } else if str_eq(a, "--version") || str_eq(a, "-v") {
            Command::Version
        } else {
            Command::Unknown
        },
    }
}

/// One command's line of the help page.
pub open spec fn help_command(name: Seq<char>, text: Seq<char>, ac: ColorName) -> Seq<SegV> {
    seq![("    "@, Paint::Plain), (name, Paint::Fg(ac)), (text, Paint::Plain)]
}

/// The help page: its title, usage, commands, and where the configuration
/// and the art live.
pub open spec fn help_spec(ac: ColorName, tc: ColorName, config_path: Seq<char>, art_dir: Seq<char>) -> Seq<
    Seq<SegV>,
> {
    page_title_spec(ac, "vaminfo -- help"@) + seq![
        seq![("USAGE:"@, Paint::FgBold(tc))],
        seq![("    vaminfo [COMMAND]"@, Paint::Plain)],
        Seq::empty(),
        seq![("COMMANDS:"@, Paint::FgBold(tc))],
        help_command("(none)"@, "        Display system information"@, ac),
        help_command("config"@, "       Launch interactive configuration wizard"@, ac),
        help_command("--mini"@, "        Show mini mode (OS, Host, RAM, Uptime)"@, ac),
        help_command("--json"@, "        Export all hardware stats as JSON"@, ac),
        help_command("--tip"@, "         Display a random Linux tip"@, ac),
        help_command("--debug"@, "       Show debug info + system information"@, ac),
        help_command("--version"@, "     Print version information"@, ac),
        help_command("--help"@, "        Show this help message"@, ac),
        Seq::empty(),
        seq![("CONFIG:"@, Paint::FgBold(tc))],
        seq![("    "@ + config_path, Paint::Plain)],
        Seq::empty(),
        seq![("ART:"@, Paint::FgBold(tc))],
        seq![("    "@ + art_dir + "/*.vtxt"@, Paint::Plain)],
        Seq::empty(),
    ]
}

fn command_line(name: &str, text: &str, ac: ColorName) -> (l: Vec<Segment>)
    ensures
        seg_views(l@) == help_command(name@, text@, ac),
{
    let mut l: Vec<Segment> = Vec::new();
    l.push(seg(owned("    "), Paint::Plain));
    l.push(seg(owned(name), Paint::Fg(ac)));
    l.push(seg(owned(text), Paint::Plain));
    assert(seg_views(l@) =~= help_command(name@, text@, ac));
    l
}

/// The help page, given where the configuration file and the art directory
/// are.
pub fn print_help(cfg: &VaminfoConfig, config_path: &str, art_dir: &str) -> (r: Vec<Vec<Segment>>)
    ensures
        seg_lines_views(r@) == help_spec(
            color_spec(cfg.ascii_color@),
            color_spec(cfg.title_color@),
            config_path@,
            art_dir@,
        ),
{
    let mut lines = print_page_title(cfg, "vaminfo -- help");
    let ghost title = seg_lines_views(lines@);
    let tc = parse_color(cfg.title_color.as_str());
    let ac = parse_color(cfg.ascii_color.as_str());
    push_line(&mut lines, line_of(seg(owned("USAGE:"), Paint::FgBold(tc))));
    push_line(&mut lines, line_of(seg(owned("    vaminfo [COMMAND]"), Paint::Plain)));
    push_line(&mut lines, empty_line());
    push_line(&mut lines, line_of(seg(owned("COMMANDS:"), Paint::FgBold(tc))));
    push_line(&mut lines, command_line("(none)", "        Display system information", ac));
    push_line(&mut lines, command_line("config", "       Launch interactive configuration wizard", ac));
    push_line(&mut lines, command_line("--mini", "        Show mini mode (OS, Host, RAM, Uptime)", ac));
    push_line(&mut lines, command_line("--json", "        Export all hardware stats as JSON", ac));
    push_line(&mut lines, command_line("--tip", "         Display a random Linux tip", ac));
    push_line(&mut lines, command_line("--debug", "       Show debug info + system information", ac));
    push_line(&mut lines, command_line("--version", "     Print version information", ac));
    push_line(&mut lines, command_line("--help", "        Show this help message", ac));
    push_line(&mut lines, empty_line());
    push_line(&mut lines, line_of(seg(owned("CONFIG:"), Paint::FgBold(tc))));
    push_line(&mut lines, line_of(seg(concat3("    ", config_path, ""), Paint::Plain)));
    push_line(&mut lines, empty_line());
    push_line(&mut lines, line_of(seg(owned("ART:"), Paint::FgBold(tc))));
    push_line(&mut lines, line_of(seg(concat3("    ", art_dir, "/*.vtxt"), Paint::Plain)));
    push_line(&mut lines, empty_line());
    proof {
        reveal_strlit("");
        assert("    "@ + config_path@ + ""@ =~= "    "@ + config_path@);
        assert(seg_lines_views(lines@) =~= help_spec(
            color_spec(cfg.ascii_color@),
            color_spec(cfg.title_color@),
            config_path@,
            art_dir@,
        ));
    }
    lines
}

/// The tip page for a tip: its title, then the tip indented.
pub open spec fn tip_page_spec(ac: ColorName, tip: Seq<char>) -> Seq<Seq<SegV>> {
    page_title_spec(ac, "Linux Tip"@) + seq![seq![("  "@ + tip, Paint::Plain)], Seq::empty()]
}

/// The tip page for a tip picked by the clock.
pub fn print_tip(cfg: &VaminfoConfig) -> (r: Vec<Vec<Segment>>)
    ensures
        exists|i: int|
            0 <= i < TIP_COUNT && seg_lines_views(r@) == tip_page_spec(
                color_spec(cfg.ascii_color@),
                tip_text(i),
            ),
{
    let mut lines = print_page_title(cfg, "Linux Tip");
    let tip = random_tip();
    push_line(&mut lines, line_of(seg(concat3("  ", tip, ""), Paint::Plain)));
    push_line(&mut lines, empty_line());
    proof {
        reveal_strlit("");
        assert("  "@ + tip@ + ""@ =~= "  "@ + tip@);
        assert(seg_lines_views(lines@) =~= tip_page_spec(color_spec(cfg.ascii_color@), tip@));
    }
    lines
}

} // verus!
