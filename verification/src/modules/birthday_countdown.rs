//! The birthday countdown module: days until the configured birthday.

use vstd::prelude::*;
use crate::calendar::{
    day_number, days_until, days_until_spec, is_date, lemma_days_before_year_lower, month_day_of,
    parse_md, today_ymd,
};
use crate::config::VaminfoConfig;
use crate::modules::{ModuleKind, kind_name};
use crate::num::{dec, push_dec};
use crate::text::{opt_str, owned, push_str, trim, trim_str};

verus! {

/// Shows how many days remain until the birthday.
pub struct BirthdayCountdownModule;

/// What the module shows on `(y, m, d)` for the configured birthday: nothing
/// when it is blank or not a valid `"M-D"`, else today, tomorrow, or the
/// number of days with the birthday as configured (trimmed).
pub open spec fn countdown_text(birthday: Seq<char>, y: int, m: int, d: int) -> Option<Seq<char>> {
    let b = trim(birthday);
    if b.len() == 0 {
        None
    } else {
        match month_day_of(b) {
            None => None,
            Some((bm, bd)) => {
                let days = days_until_spec(y, m, d, bm as int, bd as int);
                if days == 0 {
                    Some("Today! Happy Birthday!"@)
                } else if days == 1 {
                    Some("Tomorrow!"@)
                } else {
                    Some("in "@ + dec(days as nat) + " days ("@ + b + ")"@)
                }
            },
        }
    }
}

/// The countdown on a given date.
pub fn countdown(birthday: &str, y: u32, m: u32, d: u32) -> (r: Option<String>)
    requires
        is_date(y as int, m as int, d as int),
        y < u32::MAX,
    ensures
        opt_str(r) == countdown_text(birthday@, y as int, m as int, d as int),
{
    let b = trim_str(birthday);
    if b.as_str().is_empty() {
        return None;
    }
    let (bm, bd) = match parse_md(b.as_str()) {
        Some(md) => md,
        None => {
            return None;
        },
    };
    let days = days_until(y, m, d, bm, bd);
    if days == 0 {
        Some(owned("Today! Happy Birthday!"))
    } else if days == 1 {
        Some(owned("Tomorrow!"))
    } else {
        let mut r = owned("in ");
        push_dec(&mut r, days as u128);
        push_str(&mut r, " days (");
        push_str(&mut r, b.as_str());
        push_str(&mut r, ")");
        Some(r)
    }
}

impl BirthdayCountdownModule {
    /// The module's title.
    pub fn name(&self) -> (r: &'static str)
        ensures
            r == kind_name(ModuleKind::BirthdayCountdown),
    {
        "Birthday"
    }

    /// The countdown for the configured birthday on today's date, as the
    /// system clock gives it (a date whose day count fits 32 bits).
    pub fn collect(&self, cfg: &VaminfoConfig) -> (r: Option<String>)
        ensures
            exists|y: int, m: int, d: int|
                #![trigger is_date(y, m, d)]
                is_date(y, m, d) && day_number(y, m, d) <= u32::MAX && opt_str(r) == countdown_text(
                    cfg.greetings.birthday@,
                    y,
                    m,
                    d,
                ),
    {
        let (y, m, d) = today_ymd();
        proof {
            lemma_days_before_year_lower(y as int);
        }
        let r = countdown(cfg.greetings.birthday.as_str(), y, m, d);
        assert(is_date(y as int, m as int, d as int));
        r
    }
}

} // verus!
