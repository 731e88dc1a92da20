//! The uptime module: how long the system has been running, and the boot
//! time read from `/proc/stat`.

use vstd::prelude::*;
use crate::calendar::now_unix_secs;
use crate::modules::{ModuleKind, kind_name};
use crate::num::{dec, parse_uint, parse_unsigned, push_dec};
use crate::text::{has_prefix, lines, lines_seq, opt_str, push_str, starts_with, views, words, words_seq};

verus! {

/// Shows the time since boot.
pub struct UptimeModule;

/// Uptime as shown: days and hours when not zero, then minutes, as in
/// `"2d 3h 4m"`.
pub open spec fn uptime_text(secs: nat) -> Seq<char> {
    let days = secs / 86400;
    let hours = (secs % 86400) / 3600;
    let mins = (secs % 3600) / 60;
    (if days > 0 {
        dec(days) + "d "@
    } else {
        Seq::empty()
    }) + (if hours > 0 {
        dec(hours) + "h "@
    } else {
        Seq::empty()
    }) + dec(mins) + "m"@
}

/// The boot time on the first line of `/proc/stat` that starts with
/// `"btime "`: its second word as an unsigned 64-bit number.
pub open spec fn btime_from(ls: Seq<Seq<char>>, i: int) -> Option<nat>
    decreases ls.len() - i,
{
    if i < 0 || i >= ls.len() {
        None
    } else if has_prefix(ls[i], "btime "@) {
        let w = words_seq(ls[i]);
        if w.len() > 1 {
            parse_unsigned(w[1], u64::MAX as nat)
        } else {
            None
        }
    } else {
        btime_from(ls, i + 1)
    }
}

/// The boot time recorded in the contents of `/proc/stat`.
pub fn boot_time(stat: &str) -> (r: Option<u64>)
    ensures
        match r {
            Some(b) => btime_from(lines_seq(stat@), 0) == Some(b as nat),
            None => btime_from(lines_seq(stat@), 0) is None,
        },
{
    let ls = lines(stat);
    let ghost lv = views(ls@);
    let mut i: usize = 0;
    while i < ls.len()
        invariant
            i <= ls.len(),
            lv == views(ls@),
            lv == lines_seq(stat@),
            btime_from(lv, 0) == btime_from(lv, i as int),
        decreases ls.len() - i,
    {
        if starts_with(ls[i].as_str(), "btime ") {
            let w = words(ls[i].as_str());
            if w.len() > 1 {
                return parse_uint(w[1].as_str(), u64::MAX);
            }
            return None;
        }
        i = i + 1;
    }
    None
}

/// Seconds since boot at time `now`, when `now` is after the boot time.
pub open spec fn uptime_at(now: nat, btime: nat) -> Option<u64> {
    if now > btime {
        Some((now - btime) as u64)
    } else {
        None
    }
}

/// Seconds since boot, when the clock reads after the boot time.
pub fn uptime_since(now: u64, btime: u64) -> (r: Option<u64>)
    ensures
        r == uptime_at(now as nat, btime as nat),
{
    if now > btime {
        Some(now - btime)
    } else {
        None
    }
}

/// Seconds since the boot time in the contents of `/proc/stat`, at the time
/// the system clock reads (read as zero before the epoch): `None` when no
/// boot time is recorded or the clock does not read after it.
pub fn uptime_from_stat(stat: &str) -> (r: Option<u64>)
    ensures
        btime_from(lines_seq(stat@), 0) is None ==> r is None,
        forall|b: nat|
            btime_from(lines_seq(stat@), 0) == Some(b) ==> exists|now: nat|
                #![trigger uptime_at(now, b)]
                now <= u64::MAX && r == uptime_at(now, b),
{
    match boot_time(stat) {
        None => None,
        Some(b) => {
            let now = match now_unix_secs() {
                Some(n) => n,
                None => 0,
            };
            let r = uptime_since(now, b);
            assert(now as nat <= u64::MAX && r == uptime_at(now as nat, b as nat));
            r
        },
    }
}

impl UptimeModule {
    /// The module's title.
    pub fn name(&self) -> (r: &'static str)
        ensures
            r == kind_name(ModuleKind::Uptime),
    {
        "Uptime"
    }

    /// The uptime text for a number of seconds.
    pub fn collect(&self, secs: u64) -> (r: Option<String>)
        ensures
            opt_str(r) == Some(uptime_text(secs as nat)),
    {
        let days = secs / 86400;
        let hours = (secs % 86400) / 3600;
        let mins = (secs % 3600) / 60;
        let mut r = String::new();
        if days > 0 {
            push_dec(&mut r, days as u128);
            push_str(&mut r, "d ");
        }
        if hours > 0 {
            push_dec(&mut r, hours as u128);
            push_str(&mut r, "h ");
        }
        push_dec(&mut r, mins as u128);
        push_str(&mut r, "m");
        Some(r)
    }
}

} // verus!
