//! The Bluetooth module: each `hci*` adapter with its power state and
//! address.

use vstd::prelude::*;
use crate::modules::{ModuleKind, kind_name};
use crate::text::{
    concat3, join, join_seq, lemma_somes_push, lemma_views_push, opt_str, push_str, somes,
    starts_with, has_prefix, str_eq, trim, trim_str, views,
};

verus! {

/// Shows the Bluetooth adapters.
pub struct BluetoothModule;

/// One entry of `/sys/class/bluetooth`: its name and the contents of its
/// `power/runtime_status`, `blocked` and `address` files (`None` for a file
/// that could not be read).
pub struct BtAdapter {
    pub name: String,
    pub runtime_status: Option<String>,
    pub blocked: Option<String>,
    pub address: Option<String>,
}

/// An adapter's power state: from its runtime status when readable
/// (`"active"` is on), else from its blocked flag (`"0"` is on), else on.
pub open spec fn bt_state(runtime_status: Option<Seq<char>>, blocked: Option<Seq<char>>) -> Seq<char> {
    match runtime_status {
        Some(s) => if trim(s) == "active"@ {
            "on"@
        } else {
            "off"@
        },
        None => match blocked {
            Some(b) => if trim(b) == "0"@ {
                "on"@
            } else {
                "off"@
            },
            None => "on"@,
        },
    }
}

/// What an entry contributes: for an `hci*` adapter, `"NAME [STATE]"`
/// followed by its address when that is not blank.
pub open spec fn bt_entry(a: BtAdapter) -> Option<Seq<char>> {
    if !has_prefix(a.name@, "hci"@) {
        None
    } else {
        let st = bt_state(opt_str(a.runtime_status), opt_str(a.blocked));
        let addr = match opt_str(a.address) {
            Some(x) => trim(x),
            None => Seq::empty(),
        };
        if addr.len() == 0 {
            Some(a.name@ + " ["@ + st + "]"@)
        } else {
            Some(a.name@ + " ["@ + st + "] "@ + addr)
        }
    }
}

/// What the module shows for the entries of `/sys/class/bluetooth`
/// (`None` when the directory is missing or unreadable): the adapters'
/// texts separated by two spaces, when there is any.
pub open spec fn bt_text(entries: Option<Seq<BtAdapter>>) -> Option<Seq<char>> {
    match entries {
        None => None,
        Some(es) => {
            let parts = somes(es.map_values(|a: BtAdapter| bt_entry(a)));
            if parts.len() == 0 {
                None
            } else {
                Some(join_seq(parts, "  "@))
            }
        },
    }
}

fn state_of(a: &BtAdapter) -> (r: &'static str)
    ensures
        r@ == bt_state(opt_str(a.runtime_status), opt_str(a.blocked)),
{
    match &a.runtime_status {
        Some(s) => {
            let t = trim_str(s.as_str());
            if str_eq(t.as_str(), "active") {
                "on"
            } else {
                "off"
            }
        },
        None => match &a.blocked {
            Some(b) => {
                let t = trim_str(b.as_str());
                if str_eq(t.as_str(), "0") {
                    "on"
                } else {
                    "off"
                }
            },
            None => "on",
        },
    }
}

fn adapter_text(a: &BtAdapter) -> (r: Option<String>)
    ensures
        opt_str(r) == bt_entry(*a),
{
    if !starts_with(a.name.as_str(), "hci") {
        return None;
    }
    let st = state_of(a);
    let addr = match &a.address {
        Some(x) => trim_str(x.as_str()),
        None => String::new(),
    };
    let mut r = concat3(a.name.as_str(), " [", st);
    if addr.as_str().is_empty() {
        push_str(&mut r, "]");
    } else {
        push_str(&mut r, "] ");
        push_str(&mut r, addr.as_str());
    }
    Some(r)
}

impl BluetoothModule {
    /// The module's title.
    pub fn name(&self) -> (r: &'static str)
        ensures
            r == kind_name(ModuleKind::Bluetooth),
    {
        "Bluetooth"
    }

    /// The adapters' text for the entries of `/sys/class/bluetooth`.
    pub fn collect(&self, entries: &Option<Vec<BtAdapter>>) -> (r: Option<String>)
        ensures
            opt_str(r) == bt_text(
                match entries {
                    Some(v) => Some(v@),
                    None => None,
                },
            ),
    {
        let v = match entries {
            None => {
                return None;
            },
            Some(v) => v,
        };
        let ghost m = v@.map_values(|a: BtAdapter| bt_entry(a));
        let mut parts: Vec<String> = Vec::new();
        let mut i: usize = 0;
        while i < v.len()
            invariant
                i <= v.len(),
                m == v@.map_values(|a: BtAdapter| bt_entry(a)),
                views(parts@) == somes(m.take(i as int)),
            decreases v.len() - i,
        {
            let t = adapter_text(&v[i]);
            proof {
                assert(m.take(i + 1) =~= m.take(i as int).push(m[i as int]));
                lemma_somes_push(m.take(i as int), m[i as int]);
            }
            match t {
                Some(s) => {
                    proof {
                        lemma_views_push(parts@, s);
                    }
                    parts.push(s);
                },
                None => {},
            }
            i = i + 1;
        }
        assert(m.take(v.len() as int) =~= m);
        if parts.len() == 0 {
            None
        } else {
            Some(join(&parts, "  "))
        }
    }
}

} // verus!
