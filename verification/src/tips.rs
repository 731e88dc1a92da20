//! Linux tips shown with `--tip`.

use vstd::prelude::*;
use crate::calendar::now_subsec_nanos;

verus! {

/// Number of tips.
pub const TIP_COUNT: usize = 25;

/// Tip number `i`.
pub open spec fn tip_text(i: int) -> Seq<char> {
    if i == 0 {
        "Use `Ctrl+R` in bash/zsh to search your command history interactively."@
    } else if i == 1 {
        "Press `!!` to repeat the last command, or `!$` to reuse its last argument."@
    } else if i == 2 {
        "Use `&&` to chain commands: `cmd1 && cmd2` runs cmd2 only if cmd1 succeeds."@
    } else if i == 3 {
        "`cd -` switches you back to the previous directory instantly."@
    } else if i == 4 {
        "Use `man` pages! `man <command>` shows the full manual for any tool."@
    } else if i == 5 {
        "Pipe to `tee` to write output to a file AND see it on screen: `cmd | tee output.txt`"@
    } else if i == 6 {
        "`Alt+.` in bash inserts the last argument of the previous command."@
    } else if i == 7 {
        "Use `screen` or `tmux` to keep sessions alive after disconnecting from SSH."@
    } else if i == 8 {
        "`watch -n 2 <command>` runs a command every 2 seconds — great for live monitoring."@
    } else if i == 9 {
        "`find / -name '*.log' -mtime +30 -delete` removes log files older than 30 days."@
    } else if i == 10 {
        "Use `df -h` for human-readable disk usage, and `du -sh *` to size directories."@
    } else if i == 11 {
        "`grep -r 'pattern' .` recursively searches all files in the current directory."@
    } else if i == 12 {
        "Use `chmod +x script.sh && ./script.sh` to make and run a script in one go."@
    } else if i == 13 {
        "`curl -s https://wttr.in/<city>` shows the weather in your terminal."@
    } else if i == 14 {
        "`history | awk '{print $2}' | sort | uniq -c | sort -rn | head` shows your most-used commands."@
    } else if i == 15 {
        "Use `lsof -i :<port>` to find which process is using a specific port."@
    } else if i == 16 {
        "`ssh -N -L 8080:localhost:80 user@remote` creates a local port tunnel."@
    } else if i == 17 {
        "Use `xargs` to pass multiple arguments: `find . -name '*.tmp' | xargs rm`"@
    } else if i == 18 {
        "`set -euo pipefail` at the top of bash scripts makes them fail safely on errors."@
    } else if i == 19 {
        "Use `systemctl status <service>` to check service health, or `journalctl -xe` for logs."@
    } else if i == 20 {
        "`rsync -avz src/ dest/` is safer and faster than cp for syncing directories."@
    } else if i == 21 {
        "Use `trap 'cleanup' EXIT` in scripts to run cleanup even if the script crashes."@
    } else if i == 22 {
        "`cal` shows a calendar. `cal 2025` shows the full year. `ncal` for alternative layout."@
    } else if i == 23 {
        "Use `diff -u file1 file2` for unified diffs. Pipe to `colordiff` for color output."@
    } else {
        "Environment variables set with `export VAR=value` persist for the session."@
    }
}

/// Tip number `i`.
pub fn tip_at(i: usize) -> (r: &'static str)
    requires
        i < TIP_COUNT,
    ensures
        r@ == tip_text(i as int),
{
    match i {
        0 => "Use `Ctrl+R` in bash/zsh to search your command history interactively.",
        1 => "Press `!!` to repeat the last command, or `!$` to reuse its last argument.",
        2 => "Use `&&` to chain commands: `cmd1 && cmd2` runs cmd2 only if cmd1 succeeds.",
        3 => "`cd -` switches you back to the previous directory instantly.",
        4 => "Use `man` pages! `man <command>` shows the full manual for any tool.",
        5 => "Pipe to `tee` to write output to a file AND see it on screen: `cmd | tee output.txt`",
        6 => "`Alt+.` in bash inserts the last argument of the previous command.",
        7 => "Use `screen` or `tmux` to keep sessions alive after disconnecting from SSH.",
        8 => "`watch -n 2 <command>` runs a command every 2 seconds — great for live monitoring.",
        9 => "`find / -name '*.log' -mtime +30 -delete` removes log files older than 30 days.",
        10 => "Use `df -h` for human-readable disk usage, and `du -sh *` to size directories.",
        11 => "`grep -r 'pattern' .` recursively searches all files in the current directory.",
        12 => "Use `chmod +x script.sh && ./script.sh` to make and run a script in one go.",
        13 => "`curl -s https://wttr.in/<city>` shows the weather in your terminal.",
        14 => "`history | awk '{print $2}' | sort | uniq -c | sort -rn | head` shows your most-used commands.",
        15 => "Use `lsof -i :<port>` to find which process is using a specific port.",
        16 => "`ssh -N -L 8080:localhost:80 user@remote` creates a local port tunnel.",
        17 => "Use `xargs` to pass multiple arguments: `find . -name '*.tmp' | xargs rm`",
        18 => "`set -euo pipefail` at the top of bash scripts makes them fail safely on errors.",
        19 => "Use `systemctl status <service>` to check service health, or `journalctl -xe` for logs.",
        20 => "`rsync -avz src/ dest/` is safer and faster than cp for syncing directories.",
        21 => "Use `trap 'cleanup' EXIT` in scripts to run cleanup even if the script crashes.",
        22 => "`cal` shows a calendar. `cal 2025` shows the full year. `ncal` for alternative layout.",
        23 => "Use `diff -u file1 file2` for unified diffs. Pipe to `colordiff` for color output.",
        _ => "Environment variables set with `export VAR=value` persist for the session.",
    }
}

/// The tip picked by a seed: the seed modulo the number of tips.
pub fn tip_for_seed(seed: usize) -> (r: &'static str)
    ensures
        r@ == tip_text((seed % TIP_COUNT) as int),
{
    tip_at(seed % TIP_COUNT)
}

/// A tip picked by the sub-second nanoseconds of the clock.
pub fn random_tip() -> (r: &'static str)
    ensures
        exists|i: int| 0 <= i < TIP_COUNT && r@ == tip_text(i),
{
    let seed = now_subsec_nanos() as usize;
    tip_for_seed(seed)
}

} // verus!
