//! The configuration model: colours, display switches, greetings, module
//! toggles and the saved module order, with their defaults and file paths.

use vstd::prelude::*;
use crate::text::{owned, push_char, push_str, to_chars};

verus! {

// ── Default-value helpers ───────────────────────────────────────────────────

/// Default ASCII art file name.
pub fn default_ascii_file() -> (r: String)
    ensures
        r@ == "ascii1.vtxt"@,
{
    owned("ascii1.vtxt")
}

/// Default colour of the ASCII art.
pub fn default_ascii_color() -> (r: String)
    ensures
        r@ == "blue"@,
{
    owned("blue")
}

/// Default colour of titles.
pub fn default_title_color() -> (r: String)
    ensures
        r@ == "bright_blue"@,
{
    owned("bright_blue")
}

/// Default colour of keys.
pub fn default_key_color() -> (r: String)
    ensures
        r@ == "bright_blue"@,
{
    owned("bright_blue")
}

/// Default colour of values.
pub fn default_value_color() -> (r: String)
    ensures
        r@ == "white"@,
{
    owned("white")
}

/// Default separator text.
pub fn default_separator() -> (r: String)
    ensures
        r@ == "-"@,
{
    owned("-")
}

/// The default for switches that start on.
pub fn default_true() -> (r: bool)
    ensures
        r,
{
    true
}

// ── Greetings / events ──────────────────────────────────────────────────────

/// A dated event with a greeting message.
#[derive(Debug, Clone)]
pub struct GreetingEvent {
    pub date: String,
    pub name: String,
    pub message: String,
}

/// Birthday and event greetings.
#[derive(Debug, Clone)]
pub struct GreetingsConfig {
    pub enabled: bool,
    pub birthday: String,
    pub events: Vec<GreetingEvent>,
}

impl Default for GreetingsConfig {
    fn default() -> (r: Self)
        ensures
            !r.enabled,
            r.birthday@ == Seq::<char>::empty(),
            r.events@.len() == 0,
    {
        GreetingsConfig { enabled: false, birthday: String::new(), events: Vec::new() }
    }
}

// ── Module toggles ──────────────────────────────────────────────────────────

/// Number of information modules.
pub const MODULE_COUNT: usize = 38;

/// On/off switch of every information module.
#[derive(Debug, Clone, Copy)]
pub struct ModuleConfig {
    pub hostname: bool,
    pub os: bool,
    pub kernel: bool,
    pub bios: bool,
    pub cpu: bool,
    pub gpu: bool,
    pub packages: bool,
    pub ram: bool,
    pub swap: bool,
    pub load_average: bool,
    pub temperature: bool,
    pub disk: bool,
    pub uptime: bool,
    pub shell: bool,
    pub terminal: bool,
    pub desktop: bool,
    pub resolution: bool,
    pub display_server: bool,
    pub theme: bool,
    pub tty_type: bool,
    pub fs_type: bool,
    pub sys_age: bool,
    pub local_ip: bool,
    pub public_ip: bool,
    pub network: bool,
    pub bluetooth: bool,
    pub battery: bool,
    pub android_version: bool,
    pub android_device: bool,
    pub sudo_status: bool,
    pub birthday_countdown: bool,
    pub vamorasys_version: bool,
    pub vmf_version: bool,
    pub vamora_version_codename: bool,
    pub quotes: bool,
    pub jokes: bool,
    pub color_blocks_big: bool,
    pub color_blocks_small: bool,
}

impl ModuleConfig {
    /// The switch of the module at position `i` of the canonical key order.
    pub open spec fn flag(self, i: int) -> bool {
        if i == 0 {
            self.os
        } else if i == 1 {
            self.vamorasys_version
        } else if i == 2 {
            self.vmf_version
        } else if i == 3 {
            self.vamora_version_codename
        } else if i == 4 {
            self.hostname
        } else if i == 5 {
            self.kernel
        } else if i == 6 {
            self.bios
        } else if i == 7 {
            self.android_version
        } else if i == 8 {
            self.android_device
        } else if i == 9 {
            self.cpu
        } else if i == 10 {
            self.gpu
        } else if i == 11 {
            self.packages
        } else if i == 12 {
            self.ram
        } else if i == 13 {
            self.swap
        } else if i == 14 {
            self.load_average
        } else if i == 15 {
            self.temperature
        } else if i == 16 {
            self.disk
        } else if i == 17 {
            self.battery
        } else if i == 18 {
            self.bluetooth
        } else if i == 19 {
            self.uptime
        } else if i == 20 {
            self.sys_age
        } else if i == 21 {
            self.shell
        } else if i == 22 {
            self.terminal
        } else if i == 23 {
            self.tty_type
        } else if i == 24 {
            self.desktop
        } else if i == 25 {
            self.display_server
        } else if i == 26 {
            self.resolution
        } else if i == 27 {
            self.theme
        } else if i == 28 {
            self.fs_type
        } else if i == 29 {
            self.sudo_status
        } else if i == 30 {
            self.local_ip
        } else if i == 31 {
            self.public_ip
        } else if i == 32 {
            self.network
        } else if i == 33 {
            self.birthday_countdown
        } else if i == 34 {
            self.quotes
        } else if i == 35 {
            self.jokes
        } else if i == 36 {
            self.color_blocks_big
        } else {
            self.color_blocks_small
        }
    }

    /// This configuration with the switch at position `i` set to `v`.
    pub open spec fn with_flag(self, i: int, v: bool) -> ModuleConfig {
        if i == 0 {
            ModuleConfig { os: v, ..self }
        } else if i == 1 {
            ModuleConfig { vamorasys_version: v, ..self }
        } else if i == 2 {
            ModuleConfig { vmf_version: v, ..self }
        } else if i == 3 {
            ModuleConfig { vamora_version_codename: v, ..self }
        } else if i == 4 {
            ModuleConfig { hostname: v, ..self }
        } else if i == 5 {
            ModuleConfig { kernel: v, ..self }
        } else if i == 6 {
            ModuleConfig { bios: v, ..self }
        } else if i == 7 {
            ModuleConfig { android_version: v, ..self }
        } else if i == 8 {
            ModuleConfig { android_device: v, ..self }
        } else if i == 9 {
            ModuleConfig { cpu: v, ..self }
        } else if i == 10 {
            ModuleConfig { gpu: v, ..self }
        } else if i == 11 {
            ModuleConfig { packages: v, ..self }
        } else if i == 12 {
            ModuleConfig { ram: v, ..self }
        } else if i == 13 {
            ModuleConfig { swap: v, ..self }
        } else if i == 14 {
            ModuleConfig { load_average: v, ..self }
        } else if i == 15 {
            ModuleConfig { temperature: v, ..self }
        } else if i == 16 {
            ModuleConfig { disk: v, ..self }
        } else if i == 17 {
            ModuleConfig { battery: v, ..self }
        } else if i == 18 {
            ModuleConfig { bluetooth: v, ..self }
        } else if i == 19 {
            ModuleConfig { uptime: v, ..self }
        } else if i == 20 {
            ModuleConfig { sys_age: v, ..self }
        } else if i == 21 {
            ModuleConfig { shell: v, ..self }
        } else if i == 22 {
            ModuleConfig { terminal: v, ..self }
        } else if i == 23 {
            ModuleConfig { tty_type: v, ..self }
        } else if i == 24 {
            ModuleConfig { desktop: v, ..self }
        } else if i == 25 {
            ModuleConfig { display_server: v, ..self }
        } else if i == 26 {
            ModuleConfig { resolution: v, ..self }
        } else if i == 27 {
            ModuleConfig { theme: v, ..self }
        } else if i == 28 {
            ModuleConfig { fs_type: v, ..self }
        } else if i == 29 {
            ModuleConfig { sudo_status: v, ..self }
        } else if i == 30 {
            ModuleConfig { local_ip: v, ..self }
        } else if i == 31 {
            ModuleConfig { public_ip: v, ..self }
        } else if i == 32 {
            ModuleConfig { network: v, ..self }
        } else if i == 33 {
            ModuleConfig { birthday_countdown: v, ..self }
        } else if i == 34 {
            ModuleConfig { quotes: v, ..self }
        } else if i == 35 {
            ModuleConfig { jokes: v, ..self }
        } else if i == 36 {
            ModuleConfig { color_blocks_big: v, ..self }
        } else {
            ModuleConfig { color_blocks_small: v, ..self }
        }
    }

    /// The switch at position `i`.
    pub fn get_flag(&self, i: usize) -> (b: bool)
        requires
            i < MODULE_COUNT,
        ensures
            b == self.flag(i as int),
    {
        match i {
            0 => self.os,
            1 => self.vamorasys_version,
            2 => self.vmf_version,
            3 => self.vamora_version_codename,
            4 => self.hostname,
            5 => self.kernel,
            6 => self.bios,
            7 => self.android_version,
            8 => self.android_device,
            9 => self.cpu,
            10 => self.gpu,
            11 => self.packages,
            12 => self.ram,
            13 => self.swap,
            14 => self.load_average,
            15 => self.temperature,
            16 => self.disk,
            17 => self.battery,
            18 => self.bluetooth,
            19 => self.uptime,
            20 => self.sys_age,
            21 => self.shell,
            22 => self.terminal,
            23 => self.tty_type,
            24 => self.desktop,
            25 => self.display_server,
            26 => self.resolution,
            27 => self.theme,
            28 => self.fs_type,
            29 => self.sudo_status,
            30 => self.local_ip,
            31 => self.public_ip,
            32 => self.network,
            33 => self.birthday_countdown,
            34 => self.quotes,
            35 => self.jokes,
            36 => self.color_blocks_big,
            _ => self.color_blocks_small,
        }
    }

    /// Setting one switch changes that switch and no other.
    pub proof fn lemma_with_flag(self, i: int, v: bool)
        requires
            0 <= i < MODULE_COUNT,
        ensures
            forall|j: int|
                0 <= j < MODULE_COUNT ==> #[trigger] self.with_flag(i, v).flag(j) == if j == i {
                    v
                } else {
                    self.flag(j)
                },
    {
        if i == 0 {
            assert forall|j: int| 0 <= j < MODULE_COUNT implies #[trigger] self.with_flag(i, v).flag(j) == if j == i {
                v
            } else {
                self.flag(j)
            } by {}
        } else if i == 1 {
            assert forall|j: int| 0 <= j < MODULE_COUNT implies #[trigger] self.with_flag(i, v).flag(j) == if j == i {
                v
            } else {
                self.flag(j)
            } by {}
        } else if i == 2 {
            assert forall|j: int| 0 <= j < MODULE_COUNT implies #[trigger] self.with_flag(i, v).flag(j) == if j == i {
                v
            } else {
                self.flag(j)
            } by {}
        } else if i == 3 {
            assert forall|j: int| 0 <= j < MODULE_COUNT implies #[trigger] self.with_flag(i, v).flag(j) == if j == i {
                v
            } else {
                self.flag(j)
            } by {}
        } else if i == 4 {
            assert forall|j: int| 0 <= j < MODULE_COUNT implies #[trigger] self.with_flag(i, v).flag(j) == if j == i {
                v
            } else {
                self.flag(j)
            } by {}
        } else if i == 5 {
            assert forall|j: int| 0 <= j < MODULE_COUNT implies #[trigger] self.with_flag(i, v).flag(j) == if j == i {
                v
            } else {
                self.flag(j)
            } by {}
        } else if i == 6 {
            assert forall|j: int| 0 <= j < MODULE_COUNT implies #[trigger] self.with_flag(i, v).flag(j) == if j == i {
                v
            } else {
                self.flag(j)
            } by {}
        } else if i == 7 {
            assert forall|j: int| 0 <= j < MODULE_COUNT implies #[trigger] self.with_flag(i, v).flag(j) == if j == i {
                v
            } else {
                self.flag(j)
            } by {}
        } else if i == 8 {
            assert forall|j: int| 0 <= j < MODULE_COUNT implies #[trigger] self.with_flag(i, v).flag(j) == if j == i {
                v
            } else {
                self.flag(j)
            } by {}
        } else if i == 9 {
            assert forall|j: int| 0 <= j < MODULE_COUNT implies #[trigger] self.with_flag(i, v).flag(j) == if j == i {
                v
            } else {
                self.flag(j)
            } by {}
        } else if i == 10 {
            assert forall|j: int| 0 <= j < MODULE_COUNT implies #[trigger] self.with_flag(i, v).flag(j) == if j == i {
                v
            } else {
                self.flag(j)
            } by {}
        } else if i == 11 {
            assert forall|j: int| 0 <= j < MODULE_COUNT implies #[trigger] self.with_flag(i, v).flag(j) == if j == i {
                v
            } else {
                self.flag(j)
            } by {}
        } else if i == 12 {
            assert forall|j: int| 0 <= j < MODULE_COUNT implies #[trigger] self.with_flag(i, v).flag(j) == if j == i {
                v
            } else {
                self.flag(j)
            } by {}
        } else if i == 13 {
            assert forall|j: int| 0 <= j < MODULE_COUNT implies #[trigger] self.with_flag(i, v).flag(j) == if j == i {
                v
            } else {
                self.flag(j)
            } by {}
        } else if i == 14 {
            assert forall|j: int| 0 <= j < MODULE_COUNT implies #[trigger] self.with_flag(i, v).flag(j) == if j == i {
                v
            } else {
                self.flag(j)
            } by {}
        } else if i == 15 {
            assert forall|j: int| 0 <= j < MODULE_COUNT implies #[trigger] self.with_flag(i, v).flag(j) == if j == i {
                v
            } else {
                self.flag(j)
            } by {}
        } else if i == 16 {
            assert forall|j: int| 0 <= j < MODULE_COUNT implies #[trigger] self.with_flag(i, v).flag(j) == if j == i {
                v
            } else {
                self.flag(j)
            } by {}
        } else if i == 17 {
            assert forall|j: int| 0 <= j < MODULE_COUNT implies #[trigger] self.with_flag(i, v).flag(j) == if j == i {
                v
            } else {
                self.flag(j)
            } by {}
        } else if i == 18 {
            assert forall|j: int| 0 <= j < MODULE_COUNT implies #[trigger] self.with_flag(i, v).flag(j) == if j == i {
                v
            } else {
                self.flag(j)
            } by {}
        } else if i == 19 {
            assert forall|j: int| 0 <= j < MODULE_COUNT implies #[trigger] self.with_flag(i, v).flag(j) == if j == i {
                v
            } else {
                self.flag(j)
            } by {}
        } else if i == 20 {
            assert forall|j: int| 0 <= j < MODULE_COUNT implies #[trigger] self.with_flag(i, v).flag(j) == if j == i {
                v
            } else {
                self.flag(j)
            } by {}
        } else if i == 21 {
            assert forall|j: int| 0 <= j < MODULE_COUNT implies #[trigger] self.with_flag(i, v).flag(j) == if j == i {
                v
            } else {
                self.flag(j)
            } by {}
        } else if i == 22 {
            assert forall|j: int| 0 <= j < MODULE_COUNT implies #[trigger] self.with_flag(i, v).flag(j) == if j == i {
                v
            } else {
                self.flag(j)
            } by {}
        } else if i == 23 {
            assert forall|j: int| 0 <= j < MODULE_COUNT implies #[trigger] self.with_flag(i, v).flag(j) == if j == i {
                v
            } else {
                self.flag(j)
            } by {}
        } else if i == 24 {
            assert forall|j: int| 0 <= j < MODULE_COUNT implies #[trigger] self.with_flag(i, v).flag(j) == if j == i {
                v
            } else {
                self.flag(j)
            } by {}
        } else if i == 25 {
            assert forall|j: int| 0 <= j < MODULE_COUNT implies #[trigger] self.with_flag(i, v).flag(j) == if j == i {
                v
            } else {
                self.flag(j)
            } by {}
        } else if i == 26 {
            assert forall|j: int| 0 <= j < MODULE_COUNT implies #[trigger] self.with_flag(i, v).flag(j) == if j == i {
                v
            } else {
                self.flag(j)
            } by {}
        } else if i == 27 {
            assert forall|j: int| 0 <= j < MODULE_COUNT implies #[trigger] self.with_flag(i, v).flag(j) == if j == i {
                v
            } else {
                self.flag(j)
            } by {}
        } else if i == 28 {
            assert forall|j: int| 0 <= j < MODULE_COUNT implies #[trigger] self.with_flag(i, v).flag(j) == if j == i {
                v
            } else {
                self.flag(j)
            } by {}
        } else if i == 29 {
            assert forall|j: int| 0 <= j < MODULE_COUNT implies #[trigger] self.with_flag(i, v).flag(j) == if j == i {
                v
            } else {
                self.flag(j)
            } by {}
        } else if i == 30 {
            assert forall|j: int| 0 <= j < MODULE_COUNT implies #[trigger] self.with_flag(i, v).flag(j) == if j == i {
                v
            } else {
                self.flag(j)
            } by {}
        } else if i == 31 {
            assert forall|j: int| 0 <= j < MODULE_COUNT implies #[trigger] self.with_flag(i, v).flag(j) == if j == i {
                v
            } else {
                self.flag(j)
            } by {}
        } else if i == 32 {
            assert forall|j: int| 0 <= j < MODULE_COUNT implies #[trigger] self.with_flag(i, v).flag(j) == if j == i {
                v
            } else {
                self.flag(j)
            } by {}
        } else if i == 33 {
            assert forall|j: int| 0 <= j < MODULE_COUNT implies #[trigger] self.with_flag(i, v).flag(j) == if j == i {
                v
            } else {
                self.flag(j)
            } by {}
        } else if i == 34 {
            assert forall|j: int| 0 <= j < MODULE_COUNT implies #[trigger] self.with_flag(i, v).flag(j) == if j == i {
                v
            } else {
                self.flag(j)
            } by {}
        } else if i == 35 {
            assert forall|j: int| 0 <= j < MODULE_COUNT implies #[trigger] self.with_flag(i, v).flag(j) == if j == i {
                v
            } else {
                self.flag(j)
            } by {}
        } else if i == 36 {
            assert forall|j: int| 0 <= j < MODULE_COUNT implies #[trigger] self.with_flag(i, v).flag(j) == if j == i {
                v
            } else {
                self.flag(j)
            } by {}
        } else if i == 37 {
            assert forall|j: int| 0 <= j < MODULE_COUNT implies #[trigger] self.with_flag(i, v).flag(j) == if j == i {
                v
            } else {
                self.flag(j)
            } by {}
        }
    }

    /// This configuration with the switch at position `i` set to `v`.
    pub fn updated(self, i: usize, v: bool) -> (r: ModuleConfig)
        requires
            i < MODULE_COUNT,
        ensures
            r == self.with_flag(i as int, v),
    {
        if i == 0 {
            ModuleConfig { os: v, ..self }
        } else if i == 1 {
            ModuleConfig { vamorasys_version: v, ..self }
        } else if i == 2 {
            ModuleConfig { vmf_version: v, ..self }
        } else if i == 3 {
            ModuleConfig { vamora_version_codename: v, ..self }
        } else if i == 4 {
            ModuleConfig { hostname: v, ..self }
        } else if i == 5 {
            ModuleConfig { kernel: v, ..self }
        } else if i == 6 {
            ModuleConfig { bios: v, ..self }
        } else if i == 7 {
            ModuleConfig { android_version: v, ..self }
        } else if i == 8 {
            ModuleConfig { android_device: v, ..self }
        } else if i == 9 {
            ModuleConfig { cpu: v, ..self }
        } else if i == 10 {
            ModuleConfig { gpu: v, ..self }
        } else if i == 11 {
            ModuleConfig { packages: v, ..self }
        } else if i == 12 {
            ModuleConfig { ram: v, ..self }
        } else if i == 13 {
            ModuleConfig { swap: v, ..self }
        } else if i == 14 {
            ModuleConfig { load_average: v, ..self }
        } else if i == 15 {
            ModuleConfig { temperature: v, ..self }
        } else if i == 16 {
            ModuleConfig { disk: v, ..self }
        } else if i == 17 {
            ModuleConfig { battery: v, ..self }
        } else if i == 18 {
            ModuleConfig { bluetooth: v, ..self }
        } else if i == 19 {
            ModuleConfig { uptime: v, ..self }
        } else if i == 20 {
            ModuleConfig { sys_age: v, ..self }
        } else if i == 21 {
            ModuleConfig { shell: v, ..self }
        } else if i == 22 {
            ModuleConfig { terminal: v, ..self }
        } else if i == 23 {
            ModuleConfig { tty_type: v, ..self }
        } else if i == 24 {
            ModuleConfig { desktop: v, ..self }
        } else if i == 25 {
            ModuleConfig { display_server: v, ..self }
        } else if i == 26 {
            ModuleConfig { resolution: v, ..self }
        } else if i == 27 {
            ModuleConfig { theme: v, ..self }
        } else if i == 28 {
            ModuleConfig { fs_type: v, ..self }
        } else if i == 29 {
            ModuleConfig { sudo_status: v, ..self }
        } else if i == 30 {
            ModuleConfig { local_ip: v, ..self }
        } else if i == 31 {
            ModuleConfig { public_ip: v, ..self }
        } else if i == 32 {
            ModuleConfig { network: v, ..self }
        } else if i == 33 {
            ModuleConfig { birthday_countdown: v, ..self }
        } else if i == 34 {
            ModuleConfig { quotes: v, ..self }
        } else if i == 35 {
            ModuleConfig { jokes: v, ..self }
        } else if i == 36 {
            ModuleConfig { color_blocks_big: v, ..self }
        } else {
            ModuleConfig { color_blocks_small: v, ..self }
        }
    }

    /// Sets the switch at position `i` and leaves every other switch alone.
    pub fn set_flag(&mut self, i: usize, v: bool)
        requires
            i < MODULE_COUNT,
        ensures
            *final(self) == old(self).with_flag(i as int, v),
    {
        *self = self.updated(i, v);
    }
}

/// Whether the module at position `i` starts enabled: all of them except
/// uptime, public IP, birthday countdown, quotes, jokes and the small
/// colour blocks.
pub open spec fn default_flag(i: int) -> bool {
    !(i == 19 || i == 31 || i == 33 || i == 34 || i == 35 || i == 37)
}

impl Default for ModuleConfig {
    fn default() -> (r: Self)
        ensures
            forall|i: int| 0 <= i < MODULE_COUNT ==> #[trigger] r.flag(i) == default_flag(i),
    {
        ModuleConfig {
            hostname: true,
            os: true,
            kernel: true,
            bios: true,
            cpu: true,
            gpu: true,
            packages: true,
            ram: true,
            swap: true,
            load_average: true,
            temperature: true,
            disk: true,
            uptime: false,
            shell: true,
            terminal: true,
            desktop: true,
            resolution: true,
            display_server: true,
            theme: true,
            tty_type: true,
            fs_type: true,
            sys_age: true,
            local_ip: true,
            public_ip: false,
            network: true,
            bluetooth: true,
            battery: true,
            android_version: true,
            android_device: true,
            sudo_status: true,
            birthday_countdown: false,
            vamorasys_version: true,
            vmf_version: true,
            vamora_version_codename: true,
            quotes: false,
            jokes: false,
            color_blocks_big: true,
            color_blocks_small: false,
        }
    }
}

// ── Top-level config ────────────────────────────────────────────────────────

/// Everything the tool can be configured with.
#[derive(Debug, Clone)]
pub struct VaminfoConfig {
    pub ascii_file: String,
    pub ascii_color: String,
    pub title_color: String,
    pub key_color: String,
    pub value_color: String,
    pub separator: String,
    pub mini_mode: bool,
    pub show_title: bool,
    pub show_separator: bool,
    /// Render Nerd Font icons before module titles.
    pub icons_enabled: bool,
    pub greetings: GreetingsConfig,
    pub modules: ModuleConfig,
    /// Saved display order; empty means the built-in default order.
    pub module_order: Vec<String>,
}

impl Default for VaminfoConfig {
    fn default() -> (r: Self)
        ensures
            r.ascii_file@ == "ascii1.vtxt"@,
            r.ascii_color@ == "blue"@,
            r.title_color@ == "bright_blue"@,
            r.key_color@ == "bright_blue"@,
            r.value_color@ == "white"@,
            r.separator@ == "-"@,
            !r.mini_mode,
            r.show_title,
            r.show_separator,
            r.icons_enabled,
            !r.greetings.enabled,
            r.greetings.birthday@ == Seq::<char>::empty(),
            r.greetings.events@.len() == 0,
            forall|i: int| 0 <= i < MODULE_COUNT ==> #[trigger] r.modules.flag(i) == default_flag(i),
            r.module_order@.len() == 0,
    {
        VaminfoConfig {
            ascii_file: default_ascii_file(),
            ascii_color: default_ascii_color(),
            title_color: default_title_color(),
            key_color: default_key_color(),
            value_color: default_value_color(),
            separator: default_separator(),
            mini_mode: false,
            show_title: true,
            show_separator: true,
            icons_enabled: true,
            greetings: GreetingsConfig::default(),
            modules: ModuleConfig::default(),
            module_order: Vec::new(),
        }
    }
}

// ── Paths ───────────────────────────────────────────────────────────────────

/// Appending a relative component to a path the way `PathBuf::push` does on
/// Unix: a `/` goes between them unless the path is empty or already ends
/// with one.
pub open spec fn path_join(base: Seq<char>, comp: Seq<char>) -> Seq<char> {
    if base.len() == 0 || base.last() == '/' {
        base + comp
    } else {
        base + seq!['/'] + comp
    }
}

/// The application directory under a home directory.
pub open spec fn app_dir_of(home: Seq<char>) -> Seq<char> {
    path_join(path_join(path_join(home, ".VamoraSys"@), "apps"@), "vaminfo"@)
}

/// Appends a relative path component to a path.
pub fn join_path(base: &mut String, comp: &str)
    ensures
        final(base)@ == path_join(old(base)@, comp@),
{
    let v = to_chars(base.as_str());
    if !(v.len() == 0 || v[v.len() - 1] == '/') {
        push_char(base, '/');
    }
    push_str(base, comp);
    assert(final(base)@ =~= path_join(old(base)@, comp@));
}

fn app_dir(home: &str) -> (r: String)
    ensures
        r@ == app_dir_of(home@),
{
    let mut p = owned(home);
    join_path(&mut p, ".VamoraSys");
    join_path(&mut p, "apps");
    join_path(&mut p, "vaminfo");
    p
}

/// The config file location under the home directory `home`.
pub fn config_path(home: &str) -> (r: String)
    ensures
        r@ == path_join(app_dir_of(home@), "config.vmf"@),
{
    let mut p = app_dir(home);
    join_path(&mut p, "config.vmf");
    p
}

/// The ASCII art directory under the home directory `home`.
pub fn art_dir(home: &str) -> (r: String)
    ensures
        r@ == path_join(app_dir_of(home@), "art"@),
{
    let mut p = app_dir(home);
    join_path(&mut p, "art");
    p
}

/// The home directory: `$HOME`, else `$USERPROFILE`, else `"."`.
pub fn dirs_home(home_var: Option<&str>, userprofile_var: Option<&str>) -> (r: String)
    ensures
        r@ == match (home_var, userprofile_var) {
            (Some(h), _) => h@,
            (None, Some(u)) => u@,
            (None, None) => "."@,
        },
{
    match home_var {
        Some(h) => owned(h),
        None => match userprofile_var {
            Some(u) => owned(u),
            None => owned("."),
        },
    }
}

/// Two module configurations with the same switches are the same.
pub proof fn lemma_flags_eq(a: ModuleConfig, b: ModuleConfig)
    requires
        forall|j: int| 0 <= j < MODULE_COUNT ==> #[trigger] a.flag(j) == b.flag(j),
    ensures
        a == b,
{
        assert(a.flag(0) == b.flag(0));
        assert(a.flag(1) == b.flag(1));
        assert(a.flag(2) == b.flag(2));
        assert(a.flag(3) == b.flag(3));
        assert(a.flag(4) == b.flag(4));
        assert(a.flag(5) == b.flag(5));
        assert(a.flag(6) == b.flag(6));
        assert(a.flag(7) == b.flag(7));
        assert(a.flag(8) == b.flag(8));
        assert(a.flag(9) == b.flag(9));
        assert(a.flag(10) == b.flag(10));
        assert(a.flag(11) == b.flag(11));
        assert(a.flag(12) == b.flag(12));
        assert(a.flag(13) == b.flag(13));
        assert(a.flag(14) == b.flag(14));
        assert(a.flag(15) == b.flag(15));
        assert(a.flag(16) == b.flag(16));
        assert(a.flag(17) == b.flag(17));
        assert(a.flag(18) == b.flag(18));
        assert(a.flag(19) == b.flag(19));
        assert(a.flag(20) == b.flag(20));
        assert(a.flag(21) == b.flag(21));
        assert(a.flag(22) == b.flag(22));
        assert(a.flag(23) == b.flag(23));
        assert(a.flag(24) == b.flag(24));
        assert(a.flag(25) == b.flag(25));
        assert(a.flag(26) == b.flag(26));
        assert(a.flag(27) == b.flag(27));
        assert(a.flag(28) == b.flag(28));
        assert(a.flag(29) == b.flag(29));
        assert(a.flag(30) == b.flag(30));
        assert(a.flag(31) == b.flag(31));
        assert(a.flag(32) == b.flag(32));
        assert(a.flag(33) == b.flag(33));
        assert(a.flag(34) == b.flag(34));
        assert(a.flag(35) == b.flag(35));
        assert(a.flag(36) == b.flag(36));
        assert(a.flag(37) == b.flag(37));
}

/// Switching a module twice gives back every switch: the second switch
/// restores what the first changed, and the others never change.
pub proof fn law_toggle_twice(m: ModuleConfig, i: int, j: int)
    requires
        0 <= i < MODULE_COUNT,
        0 <= j < MODULE_COUNT,
    ensures
        m.with_flag(i, !m.flag(i)).with_flag(i, m.flag(i)).flag(j) == m.flag(j),
        j != i ==> m.with_flag(i, !m.flag(i)).flag(j) == m.flag(j),
        m.with_flag(i, !m.flag(i)).flag(i) == !m.flag(i),
{
    let once = m.with_flag(i, !m.flag(i));
    m.lemma_with_flag(i, !m.flag(i));
    once.lemma_with_flag(i, m.flag(i));
}

/// Switching a module twice gives back the very same configuration.
pub proof fn law_toggle_twice_restores(m: ModuleConfig, i: int)
    requires
        0 <= i < MODULE_COUNT,
    ensures
        m.with_flag(i, !m.flag(i)).with_flag(i, m.flag(i)) == m,
{
    let twice = m.with_flag(i, !m.flag(i)).with_flag(i, m.flag(i));
    assert forall|j: int| 0 <= j < MODULE_COUNT implies #[trigger] twice.flag(j) == m.flag(j) by {
        law_toggle_twice(m, i, j);
    }
    lemma_flags_eq(twice, m);
}

} // verus!
