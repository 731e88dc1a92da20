//! The system age module: how long ago the root filesystem was created.

use vstd::prelude::*;
use crate::calendar::{date_of, iso_date_text, lemma_date_of, now_unix_secs, ts_to_ymd};
use crate::modules::{ModuleKind, kind_name};
use crate::num::{dec, parse_uint, parse_unsigned, push_dec, push_dec_padded};
use crate::text::{opt_str, push_str, trim, trim_str};

verus! {

/// Shows the age of the installation.
pub struct SysAgeModule;

/// The birth time `stat -c %W /` prints: its trimmed output as a positive
/// unsigned 64-bit number (zero means the filesystem does not record it).
pub open spec fn stat_birth(out: Seq<char>) -> Option<nat> {
    match parse_unsigned(trim(out), u64::MAX as nat) {
        Some(n) if n > 0 => Some(n),
        _ => None,
    }
}

/// What the module shows for a birth time and the current time, both in
/// seconds since the epoch: the age in years and days (or days alone under
/// a year), then the birth date.
pub open spec fn age_text(birth: nat, now: nat) -> Option<Seq<char>> {
    if birth == 0 || birth > now {
        None
    } else {
        let days = ((now - birth) as nat) / 86400;
        let years = days / 365;
        let age = if years > 0 {
            dec(years) + "y "@ + dec(days % 365) + "d"@
        } else {
            dec(days) + "d"@
        };
        let (y, m, d) = date_of(birth);
        Some(age + " (since "@ + iso_date_text(y as nat, m as nat, d as nat) + ")"@)
    }
}

/// The birth time in the output of `stat -c %W /`.
pub fn birth_time_from_stat(out: &str) -> (r: Option<u64>)
    ensures
        match r {
            Some(n) => stat_birth(out@) == Some(n as nat),
            None => stat_birth(out@) is None,
        },
{
    let t = trim_str(out);
    match parse_uint(t.as_str(), u64::MAX) {
        Some(n) => if n > 0 {
            Some(n)
        } else {
            None
        },
        None => None,
    }
}

impl SysAgeModule {
    /// The module's title.
    pub fn name(&self) -> (r: &'static str)
        ensures
            r == kind_name(ModuleKind::SysAge),
    {
        "System Age"
    }

    /// The age text for a birth time at the time `now`.
    pub fn age_at(&self, birth: u64, now: u64) -> (r: Option<String>)
        ensures
            opt_str(r) == age_text(birth as nat, now as nat),
    {
        if birth == 0 || birth > now {
            return None;
        }
        let days = (now - birth) / 86400;
        let years = days / 365;
        let mut r = String::new();
        if years > 0 {
            push_dec(&mut r, years as u128);
            push_str(&mut r, "y ");
            push_dec(&mut r, (days % 365) as u128);
            push_str(&mut r, "d");
        } else {
            push_dec(&mut r, days as u128);
            push_str(&mut r, "d");
        }
        let (y, m, d) = ts_to_ymd(birth);
        proof {
            lemma_date_of(birth as nat, y as int, m as int, d as int);
        }
        push_str(&mut r, " (since ");
        push_dec_padded(&mut r, y as u128, 4);
        push_str(&mut r, "-");
        push_dec_padded(&mut r, m as u128, 2);
        push_str(&mut r, "-");
        push_dec_padded(&mut r, d as u128, 2);
        push_str(&mut r, ")");
        Some(r)
    }

    /// The age text for a birth time (`None` when unknown), at the time the
    /// system clock reads (a clock before the epoch reads as zero, where no
    /// age is shown).
    pub fn collect(&self, birth: Option<u64>) -> (r: Option<String>)
        ensures
            match birth {
                None => r is None,
                Some(b) => exists|now: nat|
                    now <= u64::MAX && opt_str(r) == #[trigger] age_text(b as nat, now),
            },
    {
        let b = match birth {
            Some(b) => b,
            None => {
                return None;
            },
        };
        let now = match now_unix_secs() {
            Some(n) => n,
            None => {
                assert(age_text(b as nat, 0) is None);
                return None;
            },
        };
        let r = self.age_at(b, now);
        assert(opt_str(r) == age_text(b as nat, now as nat));
        r
    }
}

} // verus!
