//! The GPU module: the first DRM card's product name or driver, else the
//! first display controller `lspci -nn` lists.

use vstd::prelude::*;
use crate::modules::{ModuleKind, kind_name};
use crate::text::{
    ascii_lowercase_seq, before_first, before_first_str, contains, contains_seq, file_name,
    first_some, lines, lines_seq, opt_str, path_file_name, split_once_seq, split_once_str,
    to_ascii_lowercase, trim, trim_str, views,
};

verus! {

/// Shows the graphics adapter.
pub struct GpuModule;

/// One entry of `/sys/class/drm`: the contents of `device/product_name` and
/// the target of the `device/driver` link (`None` where they could not be
/// read).
pub struct DrmCard {
    pub product_name: Option<String>,
    pub driver_link: Option<String>,
}

/// What a card gives: its trimmed product name when not blank, else
/// `"DRIVER graphics"` for the file name of its driver link.
pub open spec fn card_gpu(product_name: Option<Seq<char>>, driver_link: Option<Seq<char>>) -> Option<
    Seq<char>,
> {
    match product_name {
        Some(n) if trim(n).len() > 0 => Some(trim(n)),
        _ => match driver_link {
            Some(l) => match path_file_name(l) {
                Some(d) if d.len() > 0 => Some(d + " graphics"@),
                _ => None,
            },
            None => None,
        },
    }
}

/// What an `lspci -nn` line gives: for a VGA, 3D or display controller, the
/// text after the first `": "`, cut before the first `" ["` and trimmed,
/// when not empty.
pub open spec fn lspci_gpu(line: Seq<char>) -> Option<Seq<char>> {
    let lower = ascii_lowercase_seq(line);
    if !(contains_seq(lower, "vga compatible controller"@) || contains_seq(lower, "3d controller"@)
        || contains_seq(lower, "display controller"@)) {
        None
    } else {
        match split_once_seq(line, ": "@) {
            Some((_, model)) => {
                let m = trim(before_first(model, " ["@));
                if m.len() > 0 {
                    Some(m)
                } else {
                    None
                }
            },
            None => None,
        }
    }
}

/// What the module shows for the DRM cards (`None` when the directory could
/// not be read) and the output of `lspci -nn` (`None` when it failed).
pub open spec fn gpu_text(cards: Option<Seq<DrmCard>>, lspci: Option<Seq<char>>) -> Option<Seq<char>> {
    let from_cards = match cards {
        Some(cs) => first_some(
            cs.map_values(|c: DrmCard| card_gpu(opt_str(c.product_name), opt_str(c.driver_link))),
            0,
        ),
        None => None,
    };
    if from_cards is Some {
        from_cards
    } else {
        match lspci {
            Some(out) => first_some(lines_seq(out).map_values(|l: Seq<char>| lspci_gpu(l)), 0),
            None => None,
        }
    }
}

fn card_text(c: &DrmCard) -> (r: Option<String>)
    ensures
        opt_str(r) == card_gpu(opt_str(c.product_name), opt_str(c.driver_link)),
{
    match &c.product_name {
        Some(n) => {
            let t = trim_str(n.as_str());
            if !t.as_str().is_empty() {
                return Some(t);
            }
        },
        None => {},
    }
    match &c.driver_link {
        Some(l) => match file_name(l.as_str()) {
            Some(d) => if !d.as_str().is_empty() {
                let mut r = d;
                crate::text::push_str(&mut r, " graphics");
                Some(r)
            } else {
                None
            },
            None => None,
        },
        None => None,
    }
}

fn line_text(line: &str) -> (r: Option<String>)
    ensures
        opt_str(r) == lspci_gpu(line@),
{
    let lower = to_ascii_lowercase(line);
    let l = lower.as_str();
    if !(contains(l, "vga compatible controller") || contains(l, "3d controller") || contains(
        l,
        "display controller",
    )) {
        return None;
    }
    match split_once_str(line, ": ") {
        Some((_, model)) => {
            let cut = before_first_str(model.as_str(), " [");
            let m = trim_str(cut.as_str());
            if m.as_str().is_empty() {
                None
            } else {
                Some(m)
            }
        },
        None => None,
    }
}

fn first_card(cs: &Vec<DrmCard>) -> (r: Option<String>)
    ensures
        opt_str(r) == first_some(
            cs@.map_values(|c: DrmCard| card_gpu(opt_str(c.product_name), opt_str(c.driver_link))),
            0,
        ),
{
    let ghost m = cs@.map_values(
        |c: DrmCard| card_gpu(opt_str(c.product_name), opt_str(c.driver_link)),
    );
    let mut i: usize = 0;
    while i < cs.len()
        invariant
            i <= cs.len(),
            m == cs@.map_values(
                |c: DrmCard| card_gpu(opt_str(c.product_name), opt_str(c.driver_link)),
            ),
            first_some(m, 0) == first_some(m, i as int),
        decreases cs.len() - i,
    {
        match card_text(&cs[i]) {
            Some(t) => {
                return Some(t);
            },
            None => {},
        }
        i = i + 1;
    }
    None
}

fn first_lspci(out: &str) -> (r: Option<String>)
    ensures
        opt_str(r) == first_some(lines_seq(out@).map_values(|l: Seq<char>| lspci_gpu(l)), 0),
{
    let ls = lines(out);
    let ghost m = lines_seq(out@).map_values(|l: Seq<char>| lspci_gpu(l));
    let mut i: usize = 0;
    while i < ls.len()
        invariant
            i <= ls.len(),
            views(ls@) == lines_seq(out@),
            m == lines_seq(out@).map_values(|l: Seq<char>| lspci_gpu(l)),
            first_some(m, 0) == first_some(m, i as int),
        decreases ls.len() - i,
    {
        assert(m[i as int] == lspci_gpu(ls@[i as int]@));
        match line_text(ls[i].as_str()) {
            Some(t) => {
                return Some(t);
            },
            None => {},
        }
        i = i + 1;
    }
    None
}

impl GpuModule {
    /// The module's title.
    pub fn name(&self) -> (r: &'static str)
        ensures
            r == kind_name(ModuleKind::Gpu),
    {
        "GPU"
    }

    /// The GPU text for the DRM cards, else the `lspci -nn` output.
    pub fn collect(&self, cards: &Option<Vec<DrmCard>>, lspci: &Option<String>) -> (r: Option<String>)
        ensures
            opt_str(r) == gpu_text(
                match cards {
                    Some(v) => Some(v@),
                    None => None,
                },
                opt_str(*lspci),
            ),
    {
        match cards {
            Some(cs) => match first_card(cs) {
                Some(t) => {
                    return Some(t);
                },
                None => {},
            },
            None => {},
        }
        match lspci {
            Some(out) => first_lspci(out.as_str()),
            None => None,
        }
    }
}

} // verus!
