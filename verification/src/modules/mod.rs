//! Module selection: the canonical module keys, their on/off switches, the
//! display order, and the list of modules to show.

pub mod android;
pub mod battery;
pub mod bios;
pub mod birthday_countdown;
pub mod bluetooth;
pub mod cpu;
pub mod color_blocks;
pub mod desktop;
pub mod disk;
pub mod display_server;
pub mod fs_type;
pub mod gpu;
pub mod hostname;
pub mod jokes;
pub mod kernel;
pub mod load_average;
pub mod local_ip;
pub mod media;
pub mod network;
pub mod os_info;
pub mod packages;
pub mod public_ip;
pub mod quotes;
pub mod ram;
pub mod resolution;
pub mod shell;
pub mod sudo;
pub mod swap;
pub mod sys_age;
pub mod temperature;
pub mod terminal;
pub mod theme;
pub mod tty_type;
pub mod uptime;
pub mod vamora_os;

use vstd::prelude::*;
use crate::config::{MODULE_COUNT, ModuleConfig, VaminfoConfig};
use crate::text::{lemma_take_step, lemma_views_push, owned, str_eq, views};


verus! {

// ── Module kinds ────────────────────────────────────────────────────────────

/// One information module.
#[derive(Debug, Clone, Copy, PartialEq, Eq, Structural)]
pub enum ModuleKind {
    Os,
    VamoraSysVersion,
    VmfVersion,
    VamoraVersionCodename,
    Hostname,
    Kernel,
    Bios,
    AndroidVersion,
    AndroidDevice,
    Cpu,
    Gpu,
    Packages,
    Ram,
    Swap,
    LoadAverage,
    Temperature,
    Disk,
    Battery,
    Bluetooth,
    Uptime,
    SysAge,
    Shell,
    Terminal,
    TtyType,
    Desktop,
    DisplayServer,
    Resolution,
    Theme,
    FsType,
    SudoStatus,
    LocalIp,
    PublicIp,
    Network,
    BirthdayCountdown,
    Quotes,
    Jokes,
    ColorBlocksBig,
    ColorBlocksSmall,
}

/// The module at position `i` of the canonical order.
pub open spec fn kind_at(i: int) -> ModuleKind {
    if i == 0 {
        ModuleKind::Os
    } else if i == 1 {
        ModuleKind::VamoraSysVersion
    } else if i == 2 {
        ModuleKind::VmfVersion
    } else if i == 3 {
        ModuleKind::VamoraVersionCodename
    } else if i == 4 {
        ModuleKind::Hostname
    } else if i == 5 {
        ModuleKind::Kernel
    } else if i == 6 {
        ModuleKind::Bios
    } else if i == 7 {
        ModuleKind::AndroidVersion
    } else if i == 8 {
        ModuleKind::AndroidDevice
    } else if i == 9 {
        ModuleKind::Cpu
    } else if i == 10 {
        ModuleKind::Gpu
    } else if i == 11 {
        ModuleKind::Packages
    } else if i == 12 {
        ModuleKind::Ram
    } else if i == 13 {
        ModuleKind::Swap
    } else if i == 14 {
        ModuleKind::LoadAverage
    } else if i == 15 {
        ModuleKind::Temperature
    } else if i == 16 {
        ModuleKind::Disk
    } else if i == 17 {
        ModuleKind::Battery
    } else if i == 18 {
        ModuleKind::Bluetooth
    } else if i == 19 {
        ModuleKind::Uptime
    } else if i == 20 {
        ModuleKind::SysAge
    } else if i == 21 {
        ModuleKind::Shell
    } else if i == 22 {
        ModuleKind::Terminal
    } else if i == 23 {
        ModuleKind::TtyType
    } else if i == 24 {
        ModuleKind::Desktop
    } else if i == 25 {
        ModuleKind::DisplayServer
    } else if i == 26 {
        ModuleKind::Resolution
    } else if i == 27 {
        ModuleKind::Theme
    } else if i == 28 {
        ModuleKind::FsType
    } else if i == 29 {
        ModuleKind::SudoStatus
    } else if i == 30 {
        ModuleKind::LocalIp
    } else if i == 31 {
        ModuleKind::PublicIp
    } else if i == 32 {
        ModuleKind::Network
    } else if i == 33 {
        ModuleKind::BirthdayCountdown
    } else if i == 34 {
        ModuleKind::Quotes
    } else if i == 35 {
        ModuleKind::Jokes
    } else if i == 36 {
        ModuleKind::ColorBlocksBig
    } else {
        ModuleKind::ColorBlocksSmall
    }
}

/// The module at position `i` of the canonical order.
pub fn kind_of_index(i: usize) -> (k: ModuleKind)
    requires
        i < MODULE_COUNT,
    ensures
        k == kind_at(i as int),
{
    match i {
        0 => ModuleKind::Os,
        1 => ModuleKind::VamoraSysVersion,
        2 => ModuleKind::VmfVersion,
        3 => ModuleKind::VamoraVersionCodename,
        4 => ModuleKind::Hostname,
        5 => ModuleKind::Kernel,
        6 => ModuleKind::Bios,
        7 => ModuleKind::AndroidVersion,
        8 => ModuleKind::AndroidDevice,
        9 => ModuleKind::Cpu,
        10 => ModuleKind::Gpu,
        11 => ModuleKind::Packages,
        12 => ModuleKind::Ram,
        13 => ModuleKind::Swap,
        14 => ModuleKind::LoadAverage,
        15 => ModuleKind::Temperature,
        16 => ModuleKind::Disk,
        17 => ModuleKind::Battery,
        18 => ModuleKind::Bluetooth,
        19 => ModuleKind::Uptime,
        20 => ModuleKind::SysAge,
        21 => ModuleKind::Shell,
        22 => ModuleKind::Terminal,
        23 => ModuleKind::TtyType,
        24 => ModuleKind::Desktop,
        25 => ModuleKind::DisplayServer,
        26 => ModuleKind::Resolution,
        27 => ModuleKind::Theme,
        28 => ModuleKind::FsType,
        29 => ModuleKind::SudoStatus,
        30 => ModuleKind::LocalIp,
        31 => ModuleKind::PublicIp,
        32 => ModuleKind::Network,
        33 => ModuleKind::BirthdayCountdown,
        34 => ModuleKind::Quotes,
        35 => ModuleKind::Jokes,
        36 => ModuleKind::ColorBlocksBig,
        _ => ModuleKind::ColorBlocksSmall,
    }
}

/// The title a module shows its value under (empty for the colour blocks,
/// which show raw output).
pub open spec fn kind_name(k: ModuleKind) -> &'static str {
    match k {
        ModuleKind::Os => "OS",
        ModuleKind::VamoraSysVersion => "VamoraSys",
        ModuleKind::VmfVersion => "VMF Version",
        ModuleKind::VamoraVersionCodename => "Vamora",
        ModuleKind::Hostname => "Host",
        ModuleKind::Kernel => "Kernel",
        ModuleKind::Bios => "BIOS",
        ModuleKind::AndroidVersion => "Android",
        ModuleKind::AndroidDevice => "Device",
        ModuleKind::Cpu => "CPU",
        ModuleKind::Gpu => "GPU",
        ModuleKind::Packages => "Packages",
        ModuleKind::Ram => "RAM",
        ModuleKind::Swap => "Swap",
        ModuleKind::LoadAverage => "Load",
        ModuleKind::Temperature => "Temperature",
        ModuleKind::Disk => "Disk",
        ModuleKind::Battery => "Battery",
        ModuleKind::Bluetooth => "Bluetooth",
        ModuleKind::Uptime => "Uptime",
        ModuleKind::SysAge => "System Age",
        ModuleKind::Shell => "Shell",
        ModuleKind::Terminal => "Terminal",
        ModuleKind::TtyType => "TTY",
        ModuleKind::Desktop => "DE / WM",
        ModuleKind::DisplayServer => "Display",
        ModuleKind::Resolution => "Resolution",
        ModuleKind::Theme => "Theme",
        ModuleKind::FsType => "Filesystem",
        ModuleKind::SudoStatus => "Sudo",
        ModuleKind::LocalIp => "Local IP",
        ModuleKind::PublicIp => "Public IP",
        ModuleKind::Network => "Network",
        ModuleKind::BirthdayCountdown => "Birthday",
        ModuleKind::Quotes => "Quote",
        ModuleKind::Jokes => "Joke",
        ModuleKind::ColorBlocksBig => "",
        ModuleKind::ColorBlocksSmall => "",
    }
}

impl ModuleKind {
    /// The title this module shows its value under.
    pub fn name(&self) -> (r: &'static str)
        ensures
            r == kind_name(*self),
    {
        match self {
            ModuleKind::Os => "OS",
            ModuleKind::VamoraSysVersion => "VamoraSys",
            ModuleKind::VmfVersion => "VMF Version",
            ModuleKind::VamoraVersionCodename => "Vamora",
            ModuleKind::Hostname => "Host",
            ModuleKind::Kernel => "Kernel",
            ModuleKind::Bios => "BIOS",
            ModuleKind::AndroidVersion => "Android",
            ModuleKind::AndroidDevice => "Device",
            ModuleKind::Cpu => "CPU",
            ModuleKind::Gpu => "GPU",
            ModuleKind::Packages => "Packages",
            ModuleKind::Ram => "RAM",
            ModuleKind::Swap => "Swap",
            ModuleKind::LoadAverage => "Load",
            ModuleKind::Temperature => "Temperature",
            ModuleKind::Disk => "Disk",
            ModuleKind::Battery => "Battery",
            ModuleKind::Bluetooth => "Bluetooth",
            ModuleKind::Uptime => "Uptime",
            ModuleKind::SysAge => "System Age",
            ModuleKind::Shell => "Shell",
            ModuleKind::Terminal => "Terminal",
            ModuleKind::TtyType => "TTY",
            ModuleKind::Desktop => "DE / WM",
            ModuleKind::DisplayServer => "Display",
            ModuleKind::Resolution => "Resolution",
            ModuleKind::Theme => "Theme",
            ModuleKind::FsType => "Filesystem",
            ModuleKind::SudoStatus => "Sudo",
            ModuleKind::LocalIp => "Local IP",
            ModuleKind::PublicIp => "Public IP",
            ModuleKind::Network => "Network",
            ModuleKind::BirthdayCountdown => "Birthday",
            ModuleKind::Quotes => "Quote",
            ModuleKind::Jokes => "Joke",
            ModuleKind::ColorBlocksBig => "",
            ModuleKind::ColorBlocksSmall => "",
        }
    }
}

// ── Canonical keys ──────────────────────────────────────────────────────────

/// The configuration key of the module at position `i` of the canonical
/// display order.
pub open spec fn module_key(i: int) -> Seq<char> {
    if i == 0 {
        "os"@
    } else if i == 1 {
        "vamorasys_version"@
    } else if i == 2 {
        "vmf_version"@
    } else if i == 3 {
        "vamora_version_codename"@
    } else if i == 4 {
        "hostname"@
    } else if i == 5 {
        "kernel"@
    } else if i == 6 {
        "bios"@
    } else if i == 7 {
        "android_version"@
    } else if i == 8 {
        "android_device"@
    } else if i == 9 {
        "cpu"@
    } else if i == 10 {
        "gpu"@
    } else if i == 11 {
        "packages"@
    } else if i == 12 {
        "ram"@
    } else if i == 13 {
        "swap"@
    } else if i == 14 {
        "load_average"@
    } else if i == 15 {
        "temperature"@
    } else if i == 16 {
        "disk"@
    } else if i == 17 {
        "battery"@
    } else if i == 18 {
        "bluetooth"@
    } else if i == 19 {
        "uptime"@
    } else if i == 20 {
        "sys_age"@
    } else if i == 21 {
        "shell"@
    } else if i == 22 {
        "terminal"@
    } else if i == 23 {
        "tty_type"@
    } else if i == 24 {
        "desktop"@
    } else if i == 25 {
        "display_server"@
    } else if i == 26 {
        "resolution"@
    } else if i == 27 {
        "theme"@
    } else if i == 28 {
        "fs_type"@
    } else if i == 29 {
        "sudo_status"@
    } else if i == 30 {
        "local_ip"@
    } else if i == 31 {
        "public_ip"@
    } else if i == 32 {
        "network"@
    } else if i == 33 {
        "birthday_countdown"@
    } else if i == 34 {
        "quotes"@
    } else if i == 35 {
        "jokes"@
    } else if i == 36 {
        "color_blocks_big"@
    } else {
        "color_blocks_small"@
    }
}

/// The configuration key at position `i` of the canonical order.
pub fn module_key_str(i: usize) -> (r: &'static str)
    requires
        i < MODULE_COUNT,
    ensures
        r@ == module_key(i as int),
{
    match i {
        0 => "os",
        1 => "vamorasys_version",
        2 => "vmf_version",
        3 => "vamora_version_codename",
        4 => "hostname",
        5 => "kernel",
        6 => "bios",
        7 => "android_version",
        8 => "android_device",
        9 => "cpu",
        10 => "gpu",
        11 => "packages",
        12 => "ram",
        13 => "swap",
        14 => "load_average",
        15 => "temperature",
        16 => "disk",
        17 => "battery",
        18 => "bluetooth",
        19 => "uptime",
        20 => "sys_age",
        21 => "shell",
        22 => "terminal",
        23 => "tty_type",
        24 => "desktop",
        25 => "display_server",
        26 => "resolution",
        27 => "theme",
        28 => "fs_type",
        29 => "sudo_status",
        30 => "local_ip",
        31 => "public_ip",
        32 => "network",
        33 => "birthday_countdown",
        34 => "quotes",
        35 => "jokes",
        36 => "color_blocks_big",
        _ => "color_blocks_small",
    }
}

/// The first position at or after `i` whose key is `k`.
pub open spec fn key_index_from(k: Seq<char>, i: int) -> Option<int>
    decreases MODULE_COUNT - i,
{
    if i < 0 || i >= MODULE_COUNT {
        None
    } else if module_key(i) == k {
        Some(i)
    } else {
        key_index_from(k, i + 1)
    }
}

/// The position of key `k` in the canonical order, if it is a module key.
pub open spec fn key_index(k: Seq<char>) -> Option<int> {
    key_index_from(k, 0)
}

proof fn lemma_key_index_from_range(k: Seq<char>, i: int)
    requires
        0 <= i,
    ensures
        key_index_from(k, i) matches Some(j) ==> i <= j < MODULE_COUNT && module_key(j) == k,
    decreases MODULE_COUNT - i,
{
    if i < MODULE_COUNT && module_key(i) != k {
        lemma_key_index_from_range(k, i + 1);
    }
}

/// Every canonical key is found at its own position.
pub proof fn lemma_key_index_of_key(i: int)
    requires
        0 <= i < MODULE_COUNT,
    ensures
        key_index(module_key(i)) == Some(i),
{
    lemma_key_index_found(module_key(i), 0, i);
}

proof fn lemma_key_index_found(k: Seq<char>, from: int, i: int)
    requires
        0 <= from <= i < MODULE_COUNT,
        module_key(i) == k,
    ensures
        key_index_from(k, from) == Some(i),
    decreases i - from,
{
    if from < i {
        lemma_module_keys_distinct(from, i);
        lemma_key_index_found(k, from + 1, i);
    }
}

/// The position of `key` in the canonical order.
pub fn key_index_of(key: &str) -> (r: Option<usize>)
    ensures
        match r {
            Some(i) => key_index(key@) == Some(i as int) && i < MODULE_COUNT,
            None => key_index(key@) is None,
        },
{
    let mut i: usize = 0;
    while i < MODULE_COUNT
        invariant
            i <= MODULE_COUNT,
            key_index(key@) == key_index_from(key@, i as int),
        decreases MODULE_COUNT - i,
    {
        if str_eq(key, module_key_str(i)) {
            return Some(i);
        }
        i = i + 1;
    }
    None
}

// ── Enable / disable ────────────────────────────────────────────────────────

/// Whether the module with key `key` is switched on (unknown keys are off).
pub open spec fn enabled(m: ModuleConfig, key: Seq<char>) -> bool {
    match key_index(key) {
        Some(i) => m.flag(i),
        None => false,
    }
}

/// Module switches after setting the module with key `key` to `val`
/// (unknown keys change nothing).
pub open spec fn modules_with(m: ModuleConfig, key: Seq<char>, val: bool) -> ModuleConfig {
    match key_index(key) {
        Some(i) => m.with_flag(i, val),
        None => m,
    }
}

/// Whether the module with configuration key `key` is switched on.
pub fn is_enabled(cfg: &VaminfoConfig, key: &str) -> (r: bool)
    ensures
        r == enabled(cfg.modules, key@),
{
    match key_index_of(key) {
        Some(i) => cfg.modules.get_flag(i),
        None => false,
    }
}

/// Switches the module with configuration key `key` on or off; an unknown
/// key leaves the configuration unchanged.
pub fn set_enabled(cfg: &mut VaminfoConfig, key: &str, val: bool)
    ensures
        *final(cfg) == (VaminfoConfig { modules: modules_with(old(cfg).modules, key@, val), ..*old(cfg) }),
{
    match key_index_of(key) {
        Some(i) => {
            cfg.modules.set_flag(i, val);
        },
        None => {},
    }
}

/// Setting a module's switch and reading it back gives the value set, and
/// every other module keeps its switch.
pub proof fn law_set_then_read(m: ModuleConfig, key: Seq<char>, other: Seq<char>, val: bool)
    requires
        key_index(key) is Some,
    ensures
        enabled(modules_with(m, key, val), key) == val,
        key_index(other) != key_index(key) ==> enabled(modules_with(m, key, val), other) == enabled(m, other),
{
    let i = key_index(key)->0;
    lemma_key_index_from_range(key, 0);
    lemma_key_index_from_range(other, 0);
    m.lemma_with_flag(i, val);
}

/// Setting an unknown key changes nothing.
pub proof fn law_set_unknown_key(m: ModuleConfig, key: Seq<char>, val: bool)
    requires
        key_index(key) is None,
    ensures
        modules_with(m, key, val) == m,
        !enabled(m, key),
{
}

// ── Display order ───────────────────────────────────────────────────────────

/// The canonical keys in order.
pub open spec fn all_keys() -> Seq<Seq<char>> {
    Seq::new(MODULE_COUNT as nat, |i: int| module_key(i))
}

/// `saved` followed by each of the first `n` canonical keys it lacks.
pub open spec fn order_with_keys(saved: Seq<Seq<char>>, n: nat) -> Seq<Seq<char>>
    decreases n,
{
    if n == 0 {
        saved
    } else {
        let o = order_with_keys(saved, (n - 1) as nat);
        if o.contains(module_key(n - 1)) {
            o
        } else {
            o.push(module_key(n - 1))
        }
    }
}

/// The display order for a saved order: the canonical order when nothing is
/// saved, otherwise the saved order with every missing canonical key
/// appended in canonical order.
pub open spec fn effective_order_of(saved: Seq<Seq<char>>) -> Seq<Seq<char>> {
    if saved.len() == 0 {
        all_keys()
    } else {
        order_with_keys(saved, MODULE_COUNT as nat)
    }
}

/// Whether `key` occurs in `order`.
pub fn contains_key(order: &Vec<String>, key: &str) -> (r: bool)
    ensures
        r == views(order@).contains(key@),
{
    let mut i: usize = 0;
    while i < order.len()
        invariant
            i <= order.len(),
            forall|j: int| 0 <= j < i ==> order@[j]@ != key@,
        decreases order.len() - i,
    {
        if str_eq(order[i].as_str(), key) {
            assert(views(order@)[i as int] == key@);
            return true;
        }
        i = i + 1;
    }
    proof {
        if views(order@).contains(key@) {
            let j = choose|j: int| 0 <= j < views(order@).len() && views(order@)[j] == key@;
            assert(order@[j]@ == key@);
        }
    }
    false
}

/// The keys of all modules in display order.
pub fn effective_order(cfg: &VaminfoConfig) -> (r: Vec<String>)
    ensures
        views(r@) == effective_order_of(views(cfg.module_order@)),
{
    let mut order: Vec<String> = Vec::new();
    if cfg.module_order.len() == 0 {
        let mut i: usize = 0;
        while i < MODULE_COUNT
            invariant
                i <= MODULE_COUNT,
                views(order@) == all_keys().take(i as int),
            decreases MODULE_COUNT - i,
        {
            let k = owned(module_key_str(i));
            proof {
                lemma_views_push(order@, k);
                assert(all_keys().take(i + 1) =~= all_keys().take(i as int).push(module_key(i as int)));
            }
            order.push(k);
            i = i + 1;
        }
        assert(all_keys().take(MODULE_COUNT as int) =~= all_keys());
        assert(views(cfg.module_order@) =~= Seq::<Seq<char>>::empty());
        order
    } else {
        let mut j: usize = 0;
        while j < cfg.module_order.len()
            invariant
                j <= cfg.module_order.len(),
                views(order@) == views(cfg.module_order@).take(j as int),
            decreases cfg.module_order.len() - j,
        {
            let k = cfg.module_order[j].clone();
            proof {
                lemma_views_push(order@, k);
                lemma_take_step(views(cfg.module_order@), j as int);
                assert(views(cfg.module_order@).take(j + 1) =~= views(cfg.module_order@).take(j as int).push(k@));
            }
            order.push(k);
            j = j + 1;
        }
        assert(views(cfg.module_order@).take(j as int) =~= views(cfg.module_order@));
        let mut i: usize = 0;
        while i < MODULE_COUNT
            invariant
                i <= MODULE_COUNT,
                views(order@) == order_with_keys(views(cfg.module_order@), i as nat),
            decreases MODULE_COUNT - i,
        {
            let key = module_key_str(i);
            if !contains_key(&order, key) {
                let k = owned(key);
                proof {
                    lemma_views_push(order@, k);
                }
                order.push(k);
            }
            i = i + 1;
        }
        order
    }
}

proof fn lemma_order_with_keys(saved: Seq<Seq<char>>, n: nat)
    requires
        n <= MODULE_COUNT,
    ensures
        forall|i: int| 0 <= i < n ==> order_with_keys(saved, n).contains(#[trigger] module_key(i)),
        order_with_keys(saved, n).len() >= saved.len(),
        order_with_keys(saved, n).take(saved.len() as int) == saved,
    decreases n,
{
    if n == 0 {
        assert(saved.take(saved.len() as int) =~= saved);
    } else {
        lemma_order_with_keys(saved, (n - 1) as nat);
        let o = order_with_keys(saved, (n - 1) as nat);
        if !o.contains(module_key(n - 1)) {
            let o2 = o.push(module_key(n - 1));
            assert(o2.take(saved.len() as int) =~= o.take(saved.len() as int));
            assert(o2[o.len() as int] == module_key(n - 1));
            assert forall|i: int| 0 <= i < n implies o2.contains(#[trigger] module_key(i)) by {
                if i < n - 1 {
                    let j = choose|j: int| 0 <= j < o.len() && o[j] == module_key(i);
                    assert(o2[j] == module_key(i));
                }
            }
        }
    }
}

/// A number that tells the canonical keys apart: the length and the first
/// two characters.
pub open spec fn key_code(s: Seq<char>) -> int {
    s.len() * 65536 + (s[0] as int) * 256 + (s[1] as int)
}

/// The canonical position of a key code.
pub open spec fn position_of_code(c: int) -> int {
    if c == 159603 {
        0
    } else if c == 1144417 {
        1
    } else if c == 751213 {
        2
    } else if c == 1537633 {
        3
    } else if c == 551023 {
        4
    } else if c == 420709 {
        5
    } else if c == 287337 {
        6
    } else if c == 1007982 {
        7
    } else if c == 942446 {
        8
    } else if c == 222064 {
        9
    } else if c == 223088 {
        10
    } else if c == 553057 {
        11
    } else if c == 225889 {
        12
    } else if c == 291703 {
        13
    } else if c == 814191 {
        14
    } else if c == 750693 {
        15
    } else if c == 287849 {
        16
    } else if c == 483937 {
        17
    } else if c == 615020 {
        18
    } else if c == 423280 {
        19
    } else if c == 488313 {
        20
    } else if c == 357224 {
        21
    } else if c == 554085 {
        22
    } else if c == 554100 {
        23
    } else if c == 484453 {
        24
    } else if c == 943209 {
        25
    } else if c == 684645 {
        26
    } else if c == 357480 {
        27
    } else if c == 484979 {
        28
    } else if c == 750453 {
        29
    } else if c == 552047 {
        30
    } else if c == 618613 {
        31
    } else if c == 487013 {
        32
    } else if c == 1204841 {
        33
    } else if c == 422261 {
        34
    } else if c == 354927 {
        35
    } else if c == 1074031 {
        36
    } else if c == 1205103 {
        37
    } else {
        -1
    }
}

proof fn lemma_key_code(i: int)
    requires
        0 <= i < MODULE_COUNT,
    ensures
        position_of_code(key_code(module_key(i))) == i,
{
    reveal_strlit("os");
    reveal_strlit("vamorasys_version");
    reveal_strlit("vmf_version");
    reveal_strlit("vamora_version_codename");
    reveal_strlit("hostname");
    reveal_strlit("kernel");
    reveal_strlit("bios");
    reveal_strlit("android_version");
    reveal_strlit("android_device");
    reveal_strlit("cpu");
    reveal_strlit("gpu");
    reveal_strlit("packages");
    reveal_strlit("ram");
    reveal_strlit("swap");
    reveal_strlit("load_average");
    reveal_strlit("temperature");
    reveal_strlit("disk");
    reveal_strlit("battery");
    reveal_strlit("bluetooth");
    reveal_strlit("uptime");
    reveal_strlit("sys_age");
    reveal_strlit("shell");
    reveal_strlit("terminal");
    reveal_strlit("tty_type");
    reveal_strlit("desktop");
    reveal_strlit("display_server");
    reveal_strlit("resolution");
    reveal_strlit("theme");
    reveal_strlit("fs_type");
    reveal_strlit("sudo_status");
    reveal_strlit("local_ip");
    reveal_strlit("public_ip");
    reveal_strlit("network");
    reveal_strlit("birthday_countdown");
    reveal_strlit("quotes");
    reveal_strlit("jokes");
    reveal_strlit("color_blocks_big");
    reveal_strlit("color_blocks_small");
}

/// The canonical keys are all different.
pub proof fn lemma_module_keys_distinct(i: int, j: int)
    requires
        0 <= i < MODULE_COUNT,
        0 <= j < MODULE_COUNT,
        i != j,
    ensures
        module_key(i) != module_key(j),
{
    lemma_key_code(i);
    lemma_key_code(j);
}

proof fn lemma_all_keys_no_duplicates()
    ensures
        all_keys().no_duplicates(),
{
    assert forall|a: int, b: int| 0 <= a < all_keys().len() && 0 <= b < all_keys().len() && a != b implies all_keys()[a]
        != all_keys()[b] by {
        lemma_module_keys_distinct(a, b);
    }
}

proof fn lemma_order_with_keys_no_duplicates(saved: Seq<Seq<char>>, n: nat)
    requires
        saved.no_duplicates(),
    ensures
        order_with_keys(saved, n).no_duplicates(),
    decreases n,
{
    if n > 0 {
        lemma_order_with_keys_no_duplicates(saved, (n - 1) as nat);
        let o = order_with_keys(saved, (n - 1) as nat);
        let k = module_key(n - 1);
        if !o.contains(k) {
            let o2 = o.push(k);
            assert forall|a: int, b: int| 0 <= a < o2.len() && 0 <= b < o2.len() && a != b implies o2[a] != o2[b] by {
                if a == o.len() {
                    assert(o2[b] == o[b]);
                } else if b == o.len() {
                    assert(o2[a] == o[a]);
                }
            }
        }
    }
}

proof fn lemma_order_with_keys_complete(saved: Seq<Seq<char>>, n: nat)
    requires
        n <= MODULE_COUNT,
        forall|i: int| 0 <= i < n ==> saved.contains(#[trigger] module_key(i)),
    ensures
        order_with_keys(saved, n) == saved,
    decreases n,
{
    if n > 0 {
        lemma_order_with_keys_complete(saved, (n - 1) as nat);
        assert(saved.contains(module_key(n - 1)));
    }
}

/// The display order is settled: computing it again from itself gives it
/// back, and it repeats no key unless the saved order already did.
pub proof fn law_effective_order_stable(saved: Seq<Seq<char>>)
    ensures
        effective_order_of(effective_order_of(saved)) == effective_order_of(saved),
        saved.no_duplicates() ==> effective_order_of(saved).no_duplicates(),
{
    law_effective_order_complete(saved);
    let o = effective_order_of(saved);
    assert(o.len() > 0) by {
        if saved.len() == 0 {
            assert(all_keys().len() == MODULE_COUNT);
        } else {
            lemma_order_with_keys(saved, MODULE_COUNT as nat);
        }
    }
    lemma_order_with_keys_complete(o, MODULE_COUNT as nat);
    if saved.len() == 0 {
        lemma_all_keys_no_duplicates();
    } else if saved.no_duplicates() {
        lemma_order_with_keys_no_duplicates(saved, MODULE_COUNT as nat);
    }
}

/// The display order holds every module key, and a saved order is kept as
/// its beginning, so modules added later are never silently dropped.
pub proof fn law_effective_order_complete(saved: Seq<Seq<char>>)
    ensures
        forall|i: int| 0 <= i < MODULE_COUNT ==> effective_order_of(saved).contains(#[trigger] module_key(i)),
        saved.len() > 0 ==> effective_order_of(saved).take(saved.len() as int) == saved,
        saved.len() == 0 ==> effective_order_of(saved) == all_keys(),
{
    if saved.len() == 0 {
        assert forall|i: int| 0 <= i < MODULE_COUNT implies all_keys().contains(#[trigger] module_key(i)) by {
            assert(all_keys()[i] == module_key(i));
        }
    } else {
        lemma_order_with_keys(saved, MODULE_COUNT as nat);
    }
}

// ── Module list ─────────────────────────────────────────────────────────────

/// The module for configuration key `key`, if it names one.
pub open spec fn module_for(key: Seq<char>) -> Option<ModuleKind> {
    match key_index(key) {
        Some(i) => Some(kind_at(i)),
        None => None,
    }
}

/// The modules of the keys in `order` that are switched on, in order.
pub open spec fn enabled_kinds(order: Seq<Seq<char>>, m: ModuleConfig) -> Seq<ModuleKind>
    decreases order.len(),
{
    if order.len() == 0 {
        Seq::empty()
    } else {
        let prev = enabled_kinds(order.drop_last(), m);
        if enabled(m, order.last()) {
            match module_for(order.last()) {
                Some(k) => prev.push(k),
                None => prev,
            }
        } else {
            prev
        }
    }
}

/// The module named by configuration key `key`.
pub fn make_module(key: &str) -> (r: Option<ModuleKind>)
    ensures
        r == module_for(key@),
{
    match key_index_of(key) {
        Some(i) => Some(kind_of_index(i)),
        None => None,
    }
}

/// The modules to show: the display order, keeping the modules switched on.
pub fn build_modules(cfg: &VaminfoConfig) -> (r: Vec<ModuleKind>)
    ensures
        r@ == enabled_kinds(effective_order_of(views(cfg.module_order@)), cfg.modules),
{
    let order = effective_order(cfg);
    let mut r: Vec<ModuleKind> = Vec::new();
    let mut i: usize = 0;
    while i < order.len()
        invariant
            i <= order.len(),
            r@ == enabled_kinds(views(order@).take(i as int), cfg.modules),
        decreases order.len() - i,
    {
        proof {
            lemma_take_step(views(order@), i as int);
        }
        if is_enabled(cfg, order[i].as_str()) {
            match make_module(order[i].as_str()) {
                Some(k) => r.push(k),
                None => {},
            }
        }
        i = i + 1;
    }
    assert(views(order@).take(i as int) =~= views(order@));
    r
}

/// The fixed modules of mini mode, independent of the display order.
pub fn build_mini_modules() -> (r: Vec<ModuleKind>)
    ensures
        r@ == seq![ModuleKind::Os, ModuleKind::Hostname, ModuleKind::Ram, ModuleKind::Uptime],
{
    let mut r = Vec::new();
    r.push(ModuleKind::Os);
    r.push(ModuleKind::Hostname);
    r.push(ModuleKind::Ram);
    r.push(ModuleKind::Uptime);
    assert(r@ =~= seq![ModuleKind::Os, ModuleKind::Hostname, ModuleKind::Ram, ModuleKind::Uptime]);
    r
}

/// Every module in the list to show is switched on and comes from a key of
/// the display order.
pub proof fn law_built_modules_enabled(order: Seq<Seq<char>>, m: ModuleConfig, j: int)
    requires
        0 <= j < enabled_kinds(order, m).len(),
    ensures
        exists|i: int|
            0 <= i < order.len() && enabled(m, #[trigger] order[i]) && module_for(order[i]) == Some(
                enabled_kinds(order, m)[j],
            ),
    decreases order.len(),
{
    let prev = enabled_kinds(order.drop_last(), m);
    if j < prev.len() {
        law_built_modules_enabled(order.drop_last(), m, j);
        let i = choose|i: int|
            0 <= i < order.drop_last().len() && enabled(m, #[trigger] order.drop_last()[i])
                && module_for(order.drop_last()[i]) == Some(prev[j]);
        assert(order[i] == order.drop_last()[i]);
    } else {
        assert(order[order.len() - 1] == order.last());
    }
}

// ── Icons ───────────────────────────────────────────────────────────────────

/// The module titles that have their own icon, in table order.
pub open spec fn icon_title(i: int) -> Seq<char> {
    if i == 0 {
        "OS"@
    } else if i == 1 {
        "VamoraSys"@
    } else if i == 2 {
        "VMF Version"@
    } else if i == 3 {
        "Vamora"@
    } else if i == 4 {
        "Host"@
    } else if i == 5 {
        "Kernel"@
    } else if i == 6 {
        "BIOS"@
    } else if i == 7 {
        "Android"@
    } else if i == 8 {
        "Device"@
    } else if i == 9 {
        "CPU"@
    } else if i == 10 {
        "GPU"@
    } else if i == 11 {
        "Packages"@
    } else if i == 12 {
        "RAM"@
    } else if i == 13 {
        "Swap"@
    } else if i == 14 {
        "Load"@
    } else if i == 15 {
        "Temperature"@
    } else if i == 16 {
        "Disk"@
    } else if i == 17 {
        "Battery"@
    } else if i == 18 {
        "Bluetooth"@
    } else if i == 19 {
        "Uptime"@
    } else if i == 20 {
        "System Age"@
    } else if i == 21 {
        "Shell"@
    } else if i == 22 {
        "Terminal"@
    } else if i == 23 {
        "TTY"@
    } else if i == 24 {
        "DE / WM"@
    } else if i == 25 {
        "Display"@
    } else if i == 26 {
        "Resolution"@
    } else if i == 27 {
        "Theme"@
    } else if i == 28 {
        "Filesystem"@
    } else if i == 29 {
        "Sudo"@
    } else if i == 30 {
        "Local IP"@
    } else if i == 31 {
        "Public IP"@
    } else if i == 32 {
        "Network"@
    } else if i == 33 {
        "Birthday"@
    } else if i == 34 {
        "Quote"@
    } else {
        "Joke"@
    }
}

/// The icon of the title at table position `i`.
pub open spec fn icon_glyph(i: int) -> Seq<char> {
    if i == 0 {
        "󰌽"@
    } else if i == 1 {
        "󰒋"@
    } else if i == 2 {
        "󰏓"@
    } else if i == 3 {
        "󰙵"@
    } else if i == 4 {
        "󰟀"@
    } else if i == 5 {
        "󰒓"@
    } else if i == 6 {
        "󰘚"@
    } else if i == 7 {
        "󰀲"@
    } else if i == 8 {
        "󰍹"@
    } else if i == 9 {
        "󰻠"@
    } else if i == 10 {
        "󰢮"@
    } else if i == 11 {
        "󰏗"@
    } else if i == 12 {
        "󰍛"@
    } else if i == 13 {
        "󰓡"@
    } else if i == 14 {
        "󰘚"@
    } else if i == 15 {
        "󰔏"@
    } else if i == 16 {
        "󰋊"@
    } else if i == 17 {
        "󰁹"@
    } else if i == 18 {
        "󰂯"@
    } else if i == 19 {
        "󰥔"@
    } else if i == 20 {
        "󰃰"@
    } else if i == 21 {
        "󰆍"@
    } else if i == 22 {
        ""@
    } else if i == 23 {
        "󰆍"@
    } else if i == 24 {
        "󰨇"@
    } else if i == 25 {
        "󰍹"@
    } else if i == 26 {
        "󰲏"@
    } else if i == 27 {
        "󰔎"@
    } else if i == 28 {
        "󰙅"@
    } else if i == 29 {
        "󰕥"@
    } else if i == 30 {
        "󰩟"@
    } else if i == 31 {
        "󰖟"@
    } else if i == 32 {
        "󰌘"@
    } else if i == 33 {
        "󰃩"@
    } else if i == 34 {
        "󰝗"@
    } else {
        "󰱨"@
    }
}

/// Number of titles with their own icon.
pub const ICON_COUNT: usize = 36;

/// The fallback icon for titles without one of their own.
pub open spec fn fallback_icon() -> Seq<char> {
    "󰫢"@
}

/// The icon for `name` from the first matching table entry at or after `i`.
pub open spec fn icon_from(name: Seq<char>, i: int) -> Seq<char>
    decreases ICON_COUNT - i,
{
    if i < 0 || i >= ICON_COUNT {
        fallback_icon()
    } else if icon_title(i) == name {
        icon_glyph(i)
    } else {
        icon_from(name, i + 1)
    }
}

fn icon_entry(i: usize) -> (r: (&'static str, &'static str))
    requires
        i < ICON_COUNT,
    ensures
        r.0@ == icon_title(i as int),
        r.1@ == icon_glyph(i as int),
{
    match i {
        0 => ("OS", "󰌽"),
        1 => ("VamoraSys", "󰒋"),
        2 => ("VMF Version", "󰏓"),
        3 => ("Vamora", "󰙵"),
        4 => ("Host", "󰟀"),
        5 => ("Kernel", "󰒓"),
        6 => ("BIOS", "󰘚"),
        7 => ("Android", "󰀲"),
        8 => ("Device", "󰍹"),
        9 => ("CPU", "󰻠"),
        10 => ("GPU", "󰢮"),
        11 => ("Packages", "󰏗"),
        12 => ("RAM", "󰍛"),
        13 => ("Swap", "󰓡"),
        14 => ("Load", "󰘚"),
        15 => ("Temperature", "󰔏"),
        16 => ("Disk", "󰋊"),
        17 => ("Battery", "󰁹"),
        18 => ("Bluetooth", "󰂯"),
        19 => ("Uptime", "󰥔"),
        20 => ("System Age", "󰃰"),
        21 => ("Shell", "󰆍"),
        22 => ("Terminal", ""),
        23 => ("TTY", "󰆍"),
        24 => ("DE / WM", "󰨇"),
        25 => ("Display", "󰍹"),
        26 => ("Resolution", "󰲏"),
        27 => ("Theme", "󰔎"),
        28 => ("Filesystem", "󰙅"),
        29 => ("Sudo", "󰕥"),
        30 => ("Local IP", "󰩟"),
        31 => ("Public IP", "󰖟"),
        32 => ("Network", "󰌘"),
        33 => ("Birthday", "󰃩"),
        34 => ("Quote", "󰝗"),
        _ => ("Joke", "󰱨"),
    }
}

/// The Nerd Font icon shown before a module title; titles without an icon
/// of their own get the four-point star.
pub fn module_icon(name: &str) -> (r: &'static str)
    ensures
        r@ == icon_from(name@, 0),
{
    let mut i: usize = 0;
    while i < ICON_COUNT
        invariant
            i <= ICON_COUNT,
            icon_from(name@, 0) == icon_from(name@, i as int),
        decreases ICON_COUNT - i,
    {
        let (title, glyph) = icon_entry(i);
        if str_eq(name, title) {
            return glyph;
        }
        i = i + 1;
    }
    "󰫢"
}

/// A title found in the icon table at position `j` or later gets the icon
/// of a table entry with that title.
proof fn lemma_icon_found(name: Seq<char>, from: int, j: int)
    requires
        0 <= from <= j < ICON_COUNT,
        icon_title(j) == name,
    ensures
        exists|i: int|
            from <= i < ICON_COUNT && icon_title(i) == name && #[trigger] icon_glyph(i) == icon_from(name, from),
    decreases j - from,
{
    if icon_title(from) != name {
        lemma_icon_found(name, from + 1, j);
    } else {
        assert(icon_glyph(from) == icon_from(name, from));
    }
}

/// No title's own icon is the fallback icon.
proof fn lemma_glyph_not_fallback(i: int)
    requires
        0 <= i < ICON_COUNT,
    ensures
        icon_glyph(i) != fallback_icon(),
{
    reveal_strlit("󰫢");
    reveal_strlit("󰌽");
    reveal_strlit("󰒋");
    reveal_strlit("󰏓");
    reveal_strlit("󰙵");
    reveal_strlit("󰟀");
    reveal_strlit("󰒓");
    reveal_strlit("󰘚");
    reveal_strlit("󰀲");
    reveal_strlit("󰍹");
    reveal_strlit("󰻠");
    reveal_strlit("󰢮");
    reveal_strlit("󰏗");
    reveal_strlit("󰍛");
    reveal_strlit("󰓡");
    reveal_strlit("󰔏");
    reveal_strlit("󰋊");
    reveal_strlit("󰁹");
    reveal_strlit("󰂯");
    reveal_strlit("󰥔");
    reveal_strlit("󰃰");
    reveal_strlit("󰆍");
    reveal_strlit("");
    reveal_strlit("󰨇");
    reveal_strlit("󰲏");
    reveal_strlit("󰔎");
    reveal_strlit("󰙅");
    reveal_strlit("󰕥");
    reveal_strlit("󰩟");
    reveal_strlit("󰖟");
    reveal_strlit("󰌘");
    reveal_strlit("󰃩");
    reveal_strlit("󰝗");
    reveal_strlit("󰱨");
    assert(icon_glyph(i)[0] != fallback_icon()[0]);
}

/// The position in the icon table of a module's title.
pub open spec fn icon_index(k: ModuleKind) -> int {
    match k {
        ModuleKind::Os => 0,
        ModuleKind::VamoraSysVersion => 1,
        ModuleKind::VmfVersion => 2,
        ModuleKind::VamoraVersionCodename => 3,
        ModuleKind::Hostname => 4,
        ModuleKind::Kernel => 5,
        ModuleKind::Bios => 6,
        ModuleKind::AndroidVersion => 7,
        ModuleKind::AndroidDevice => 8,
        ModuleKind::Cpu => 9,
        ModuleKind::Gpu => 10,
        ModuleKind::Packages => 11,
        ModuleKind::Ram => 12,
        ModuleKind::Swap => 13,
        ModuleKind::LoadAverage => 14,
        ModuleKind::Temperature => 15,
        ModuleKind::Disk => 16,
        ModuleKind::Battery => 17,
        ModuleKind::Bluetooth => 18,
        ModuleKind::Uptime => 19,
        ModuleKind::SysAge => 20,
        ModuleKind::Shell => 21,
        ModuleKind::Terminal => 22,
        ModuleKind::TtyType => 23,
        ModuleKind::Desktop => 24,
        ModuleKind::DisplayServer => 25,
        ModuleKind::Resolution => 26,
        ModuleKind::Theme => 27,
        ModuleKind::FsType => 28,
        ModuleKind::SudoStatus => 29,
        ModuleKind::LocalIp => 30,
        ModuleKind::PublicIp => 31,
        ModuleKind::Network => 32,
        ModuleKind::BirthdayCountdown => 33,
        ModuleKind::Quotes => 34,
        ModuleKind::Jokes => 35,
        _ => 36,
    }
}

/// Every module with a title has an icon of its own: its title is in the
/// icon table, and `module_icon` gives that title's icon, never the
/// fallback for unknown titles.
pub proof fn law_titled_modules_have_icons(k: ModuleKind)
    requires
        kind_name(k)@ != ""@,
    ensures
        exists|i: int|
            0 <= i < ICON_COUNT && icon_title(i) == kind_name(k)@ && #[trigger] icon_glyph(i) == icon_from(
                kind_name(k)@,
                0,
            ),
        icon_from(kind_name(k)@, 0) != fallback_icon(),
{
    let j = icon_index(k);
    assert(0 <= j < ICON_COUNT && icon_title(j) == kind_name(k)@);
    lemma_icon_found(kind_name(k)@, 0, j);
    let i = choose|i: int|
        0 <= i < ICON_COUNT && icon_title(i) == kind_name(k)@ && #[trigger] icon_glyph(i) == icon_from(kind_name(k)@, 0);
    lemma_glyph_not_fallback(i);
}

// ── Collected values ────────────────────────────────────────────────────────

/// The name/value entries the modules give, in module order: each module
/// that gave a value contributes its title and the value; with `named_only`,
/// modules without a title (the colour blocks) are left out.
pub open spec fn entries_of(kinds: Seq<ModuleKind>, values: Seq<Option<Seq<char>>>, named_only: bool) -> Seq<
    (Seq<char>, Seq<char>),
>
    decreases kinds.len(),
{
    if kinds.len() == 0 || values.len() == 0 {
        Seq::empty()
    } else {
        let prev = entries_of(kinds.drop_last(), values.drop_last(), named_only);
        let name = kind_name(kinds.last())@;
        match values.last() {
            Some(v) => if named_only && name.len() == 0 {
                prev
            } else {
                prev.push((name, v))
            },
            None => prev,
        }
    }
}

/// The views of optional strings.
pub open spec fn opt_views(v: Seq<Option<String>>) -> Seq<Option<Seq<char>>> {
    v.map_values(|o: Option<String>| crate::text::opt_str(o))
}

/// The entries the modules give for the values collected for them.
pub fn module_entries(kinds: &Vec<ModuleKind>, values: &Vec<Option<String>>, named_only: bool) -> (r: Vec<
    (String, String),
>)
    requires
        kinds@.len() == values@.len(),
    ensures
        crate::text::pair_views(r@) == entries_of(kinds@, opt_views(values@), named_only),
{
    let ghost ov = opt_views(values@);
    let mut r: Vec<(String, String)> = Vec::new();
    let mut i: usize = 0;
    while i < kinds.len()
        invariant
            i <= kinds.len(),
            kinds@.len() == values@.len(),
            ov == opt_views(values@),
            crate::text::pair_views(r@) == entries_of(kinds@.take(i as int), ov.take(i as int), named_only),
        decreases kinds.len() - i,
    {
        proof {
            assert(kinds@.take(i + 1).drop_last() =~= kinds@.take(i as int));
            assert(ov.take(i + 1).drop_last() =~= ov.take(i as int));
        }
        let name = kinds[i].name();
        match &values[i] {
            Some(v) => if !(named_only && name.is_empty()) {
                let e = (owned(name), v.clone());
                proof {
                    crate::text::lemma_pair_views_push(r@, e);
                }
                r.push(e);
            },
            None => {},
        }
        i = i + 1;
    }
    proof {
        assert(kinds@.take(kinds.len() as int) =~= kinds@);
        assert(ov.take(kinds.len() as int) =~= ov);
    }
    r
}

/// The named entries for JSON export: the modules' titles and values,
/// leaving out modules without a title or a value.
pub fn collect_all(kinds: &Vec<ModuleKind>, values: &Vec<Option<String>>) -> (r: Vec<(String, String)>)
    requires
        kinds@.len() == values@.len(),
    ensures
        crate::text::pair_views(r@) == entries_of(kinds@, opt_views(values@), true),
{
    module_entries(kinds, values, true)
}

} // verus!
