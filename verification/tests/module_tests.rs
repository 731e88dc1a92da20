use vaminfo::modules::android::{getprop_value, AndroidDeviceModule, AndroidVersionModule};
use vaminfo::modules::battery::{BatteryModule, PowerSupply};
use vaminfo::modules::bios::BiosModule;
use vaminfo::modules::bluetooth::{BluetoothModule, BtAdapter};
use vaminfo::modules::cpu::CpuModule;
use vaminfo::modules::desktop::{DesktopEnv, DesktopModule};
use vaminfo::modules::display_server::{DisplayEnv, DisplayServerModule};
use vaminfo::modules::fs_type::FsTypeModule;
use vaminfo::modules::gpu::{DrmCard, GpuModule};
use vaminfo::modules::hostname::HostnameModule;
use vaminfo::modules::jokes::{joke_for_seed, JokesModule};
use vaminfo::modules::kernel::KernelModule;
use vaminfo::modules::load_average::LoadAverageModule;
use vaminfo::modules::local_ip::LocalIpModule;
use vaminfo::modules::public_ip::PublicIpModule;
use vaminfo::modules::shell::ShellModule;
use vaminfo::modules::sudo::{is_in_sudo_group, SudoModule};
use vaminfo::modules::temperature::TemperatureModule;
use vaminfo::modules::tty_type::TtyTypeModule;
use vaminfo::modules::uptime::{boot_time, uptime_since, UptimeModule};
use vaminfo::modules::vamora_os::{
    parse_vmf, parse_vmf_line, vmf_get, VamoraSysVersionModule, VamoraVersionCodenameModule,
    VmfVersionModule,
};

fn s(x: &str) -> String {
    x.to_string()
}

fn some(x: &str) -> Option<String> {
    Some(x.to_string())
}

#[test]
fn module_titles() {
    assert_eq!(HostnameModule.name(), "Host");
    assert_eq!(KernelModule.name(), "Kernel");
    assert_eq!(LoadAverageModule.name(), "Load");
    assert_eq!(ShellModule.name(), "Shell");
    assert_eq!(DesktopModule.name(), "DE / WM");
    assert_eq!(JokesModule.name(), "Joke");
    assert_eq!(BiosModule.name(), "BIOS");
    assert_eq!(AndroidVersionModule.name(), "Android");
    assert_eq!(AndroidDeviceModule.name(), "Device");
    assert_eq!(TtyTypeModule.name(), "TTY");
    assert_eq!(UptimeModule.name(), "Uptime");
    assert_eq!(BatteryModule.name(), "Battery");
    assert_eq!(FsTypeModule.name(), "Filesystem");
    assert_eq!(PublicIpModule.name(), "Public IP");
    assert_eq!(LocalIpModule.name(), "Local IP");
    assert_eq!(SudoModule.name(), "Sudo");
    assert_eq!(BluetoothModule.name(), "Bluetooth");
    assert_eq!(GpuModule.name(), "GPU");
    assert_eq!(CpuModule.name(), "CPU");
    assert_eq!(TemperatureModule.name(), "Temperature");
    assert_eq!(DisplayServerModule.name(), "Display");
    assert_eq!(VamoraSysVersionModule.name(), "VamoraSys");
    assert_eq!(VmfVersionModule.name(), "VMF Version");
    assert_eq!(VamoraVersionCodenameModule.name(), "Vamora");
}

#[test]
fn shell_shows_file_name() {
    assert_eq!(ShellModule.collect(some("/bin/zsh")), some("zsh"));
    assert_eq!(ShellModule.collect(some("/usr/bin/")), some("bin"));
    assert_eq!(ShellModule.collect(some("/")), some("/"));
    assert_eq!(ShellModule.collect(some("fish")), some("fish"));
    assert_eq!(ShellModule.collect(None), None);
}

#[test]
fn desktop_combines_session_and_protocol() {
    let env = DesktopEnv {
        xdg_current_desktop: some("GNOME"),
        desktop_session: some("ignored"),
        gdm_session: None,
        wayland_display: some("wayland-0"),
        display: some(":0"),
    };
    assert_eq!(DesktopModule.collect(env), some("GNOME (Wayland)"));
    let env = DesktopEnv {
        xdg_current_desktop: None,
        desktop_session: some("plasma"),
        gdm_session: some("ignored"),
        wayland_display: None,
        display: some(":0"),
    };
    assert_eq!(DesktopModule.collect(env), some("plasma (X11)"));
    let env = DesktopEnv {
        xdg_current_desktop: None,
        desktop_session: None,
        gdm_session: some("ubuntu"),
        wayland_display: None,
        display: None,
    };
    assert_eq!(DesktopModule.collect(env), some("ubuntu"));
    let env = DesktopEnv {
        xdg_current_desktop: None,
        desktop_session: None,
        gdm_session: None,
        wayland_display: None,
        display: some(""),
    };
    assert_eq!(DesktopModule.collect(env), some("X11"));
    let env = DesktopEnv {
        xdg_current_desktop: None,
        desktop_session: None,
        gdm_session: None,
        wayland_display: None,
        display: None,
    };
    assert_eq!(DesktopModule.collect(env), None);
}

#[test]
fn jokes_by_seed() {
    assert_eq!(
        joke_for_seed(0),
        "Why do programmers prefer dark mode?\n  -> Because light attracts bugs."
    );
    assert_eq!(
        joke_for_seed(28),
        "A SQL query walks into a bar, walks up to two tables and asks...\n  -> \"Can I join you?\""
    );
    assert_eq!(joke_for_seed(84), joke_for_seed(0));
    assert_eq!(joke_for_seed(6), joke_for_seed(0));
    let j = JokesModule.collect().unwrap();
    assert!(j.contains("\n  -> "));
}

#[test]
fn bios_parts() {
    assert_eq!(
        BiosModule.collect(some(" American Megatrends \n"), some("F.20\n"), some("01/02/2023\n")),
        some("American Megatrends  F.20  01/02/2023")
    );
    assert_eq!(BiosModule.collect(some("Dell\n"), None, some(" 2020 ")), some("Dell  2020"));
    assert_eq!(BiosModule.collect(some("Dell"), some("  "), None), some("Dell"));
    assert_eq!(BiosModule.collect(None, some("1"), some("2")), None);
    assert_eq!(BiosModule.collect(some(" \n"), some("1"), some("2")), None);
}

#[test]
fn android_modules() {
    assert_eq!(getprop_value("  14\n"), some("14"));
    assert_eq!(getprop_value("  \n"), None);
    let v = AndroidVersionModule;
    assert_eq!(v.collect(true, some("33"), some("2023-05-01")), some("SDK 33 | Patch 2023-05-01"));
    assert_eq!(v.collect(true, some("33"), None), some("SDK 33"));
    assert_eq!(v.collect(true, None, some("2023-05-01")), some("Patch 2023-05-01"));
    assert_eq!(v.collect(true, None, None), None);
    assert_eq!(v.collect(false, some("33"), some("p")), None);
    let d = AndroidDeviceModule;
    assert_eq!(
        d.collect(true, some("google"), some("Pixel 7"), some("panther")),
        some("google Pixel 7 (panther)")
    );
    assert_eq!(d.collect(true, None, None, None), some("Unknown"));
    assert_eq!(d.collect(true, None, some("X1"), some("X1")), some("X1"));
    assert_eq!(d.collect(false, some("a"), some("b"), some("c")), None);
}

#[test]
fn tty_kinds() {
    let t = TtyTypeModule;
    assert_eq!(t.collect(some("/dev/pts/3"), None), some("PTY (pts/3)"));
    assert_eq!(t.collect(some("/dev/pts//dev/pts/4"), None), some("PTY (pts/4)"));
    assert_eq!(t.collect(some("/dev/tty1"), some("linux")), some("TTY (tty1)"));
    assert_eq!(t.collect(some("/dev/null"), None), some("none (piped/null)"));
    assert_eq!(t.collect(some("pipe:[123]"), None), some("pipe:[123]"));
    assert_eq!(t.collect(None, some("linux")), some("TTY"));
    assert_eq!(t.collect(None, some("xterm")), some("PTY (xterm)"));
    assert_eq!(t.collect(None, None), None);
}

#[test]
fn uptime_text_and_boot_time() {
    let u = UptimeModule;
    assert_eq!(u.collect(0), some("0m"));
    assert_eq!(u.collect(59), some("0m"));
    assert_eq!(u.collect(3600), some("1h 0m"));
    assert_eq!(u.collect(90061), some("1d 1h 1m"));
    assert_eq!(u.collect(2 * 86400 + 120), some("2d 2m"));
    assert_eq!(boot_time("cpu 1 2\nbtime 1700000000\nprocesses 5\n"), Some(1700000000));
    assert_eq!(boot_time("btime abc\nbtime 5\n"), None);
    assert_eq!(boot_time("btimex 5\n"), None);
    assert_eq!(boot_time("cpu 1\n"), None);
    assert_eq!(boot_time("btime\n"), None);
    assert_eq!(uptime_since(10, 3), Some(7));
    assert_eq!(uptime_since(3, 3), None);
    assert_eq!(uptime_since(2, 3), None);
}

#[test]
fn vmf_release_file() {
    let content = "# comment\nNAME=\"Vamora\"\n\n  VERSION = 1.0 \nno equals here\nNAME=Other\n";
    let es = parse_vmf(content).unwrap();
    assert_eq!(
        es,
        vec![(s("NAME"), s("Vamora")), (s("VERSION"), s("1.0")), (s("NAME"), s("Other"))]
    );
    assert_eq!(vmf_get(&es, "NAME"), some("Other"));
    assert_eq!(vmf_get(&es, "VERSION"), some("1.0"));
    assert_eq!(vmf_get(&es, "MISSING"), None);
    assert_eq!(parse_vmf("# only a comment\n\n"), None);
    assert_eq!(parse_vmf_line("  KEY = \"val=ue\"  "), Some((s("KEY"), s("val=ue"))));
    assert_eq!(parse_vmf_line("#KEY=1"), None);
    assert_eq!(parse_vmf_line("=x"), Some((s(""), s("x"))));
    assert_eq!(
        VamoraSysVersionModule.collect(&some("VAMORASYS_VERSION=2.1\n")),
        some("2.1")
    );
    assert_eq!(VmfVersionModule.collect(&some("VERSION=\n")), None);
    assert_eq!(VmfVersionModule.collect(&None), None);
    let c = VamoraVersionCodenameModule;
    assert_eq!(c.collect(&some("VERSION=1.0\nVERSION_CODENAME=Orion\n")), some("1.0 Orion"));
    assert_eq!(c.collect(&some("VERSION_CODENAME=\"Orion\"\n")), some("Orion"));
    assert_eq!(c.collect(&some("VERSION=1.0\n")), some("1.0"));
    assert_eq!(c.collect(&some("OTHER=1\n")), None);
}

#[test]
fn battery_first_charged_battery() {
    let supplies = vec![
        PowerSupply { name: s("AC"), capacity: some("1"), status: None },
        PowerSupply { name: s("BAT0"), capacity: some("  \n"), status: some("Full") },
        PowerSupply { name: s("BAT1"), capacity: some("85\n"), status: some("Charging\n") },
    ];
    assert_eq!(BatteryModule.collect(&Some(supplies)), some("BAT1 85%  [Charging]"));
    let supplies = vec![PowerSupply { name: s("BAT0"), capacity: some("40"), status: None }];
    assert_eq!(BatteryModule.collect(&Some(supplies)), some("BAT0 40%"));
    let supplies = vec![PowerSupply { name: s("BAT0"), capacity: None, status: some("x") }];
    assert_eq!(BatteryModule.collect(&Some(supplies)), None);
    assert_eq!(BatteryModule.collect(&None), None);
}

#[test]
fn filesystem_from_mounts_or_df() {
    let f = FsTypeModule;
    let mounts = some("proc /proc proc rw 0 0\n/dev/sda2 / ext4 rw 0 0\n");
    assert_eq!(f.collect(&mounts, &None), some("ext4"));
    let mounts = some("none / tmpfs rw 0 0\n");
    let df = some("Filesystem Type 1K-blocks\n/dev/sda2 btrfs 100\n");
    assert_eq!(f.collect(&mounts, &df), some("btrfs"));
    assert_eq!(f.collect(&None, &some("only one line\n")), None);
    assert_eq!(f.collect(&None, &None), None);
}

#[test]
fn public_ip_answers() {
    let p = PublicIpModule;
    assert_eq!(p.accept(" 1.2.3.4\n"), some("1.2.3.4"));
    assert_eq!(p.accept("  \n"), None);
    let long49 = "a".repeat(49);
    let long50 = "a".repeat(50);
    assert_eq!(p.accept(&long49), Some(long49.clone()));
    assert_eq!(p.accept(&long50), None);
}

#[test]
fn local_ip_sources() {
    let l = LocalIpModule;
    assert_eq!(l.collect(some("192.168.1.5"), &some("10.0.0.1")), some("192.168.1.5"));
    assert_eq!(
        l.collect(some("0.0.0.0"), &some("127.0.0.1 169.254.1.1 10.0.0.2 ")),
        some("10.0.0.2")
    );
    assert_eq!(l.collect(None, &some("127.0.0.1\n")), None);
    assert_eq!(l.collect(None, &None), None);
}

#[test]
fn sudo_rights() {
    let group = "root:x:0:\nsudo:x:27:bob, alice\nusers:x:100:carol\n";
    assert!(is_in_sudo_group("alice", group));
    assert!(is_in_sudo_group("alice", "wheel:x:10:alice"));
    assert!(!is_in_sudo_group("carol", group));
    assert!(!is_in_sudo_group("", "sudo:x:27:"));
    assert!(!is_in_sudo_group("alice", "sudo:x:27"));
    let m = SudoModule;
    assert_eq!(m.collect(true, "nobody", "", &None), some("yes (passwordless)"));
    assert_eq!(m.collect(false, "alice", group, &some("1000")), some("yes (group member)"));
    assert_eq!(m.collect(false, "dave", group, &some("0\n")), some("root"));
    assert_eq!(m.collect(false, "dave", group, &some("1000\n")), some("no"));
    assert_eq!(m.collect(false, "dave", "", &None), some("no"));
}

#[test]
fn bluetooth_adapters() {
    let adapters = vec![
        BtAdapter {
            name: s("hci0"),
            runtime_status: some("active\n"),
            blocked: some("1"),
            address: some("AA:BB:CC\n"),
        },
        BtAdapter { name: s("hci1"), runtime_status: None, blocked: some("1\n"), address: None },
        BtAdapter { name: s("other"), runtime_status: None, blocked: None, address: None },
        BtAdapter { name: s("hci2"), runtime_status: some("suspended"), blocked: None, address: some(" ") },
        BtAdapter { name: s("hci3"), runtime_status: None, blocked: None, address: None },
    ];
    assert_eq!(
        BluetoothModule.collect(&Some(adapters)),
        some("hci0 [on] AA:BB:CC  hci1 [off]  hci2 [off]  hci3 [on]")
    );
    assert_eq!(BluetoothModule.collect(&Some(vec![])), None);
    assert_eq!(BluetoothModule.collect(&None), None);
}

#[test]
fn gpu_sources() {
    let g = GpuModule;
    let cards = vec![
        DrmCard { product_name: some("  \n"), driver_link: None },
        DrmCard { product_name: None, driver_link: some("../../../../bus/pci/drivers/i915") },
    ];
    assert_eq!(g.collect(&Some(cards), &None), some("i915 graphics"));
    let cards = vec![DrmCard { product_name: some("  NVIDIA GeForce  \n"), driver_link: None }];
    assert_eq!(g.collect(&Some(cards), &None), some("NVIDIA GeForce"));
    let lspci = some(
        "00:00.0 Host bridge [0600]: Intel Corporation Device [8086:5914]\n00:02.0 VGA compatible controller [0300]: Intel Corporation UHD Graphics 620 [8086:5917] (rev 07)\n",
    );
    assert_eq!(g.collect(&Some(vec![]), &lspci), some("Intel Corporation UHD Graphics 620"));
    assert_eq!(g.collect(&None, &some("01:00.0 3D controller: NVIDIA\n")), some("NVIDIA"));
    assert_eq!(g.collect(&None, &some("01:00.0 Audio device: X\n")), None);
    assert_eq!(g.collect(&None, &None), None);
}

#[test]
fn cpu_text() {
    assert_eq!(
        CpuModule.collect("  Intel(R) Core(TM) i7  ", 8, 2800, "12.5"),
        some("Intel(R) Core(TM) i7 (8 cores) @ 2800 MHz  [12.5% load]")
    );
    assert_eq!(CpuModule.collect("x", 0, 1, "0.0"), None);
}

#[test]
fn temperature_labels() {
    let t = TemperatureModule;
    assert!(t.is_zone("thermal_zone3"));
    assert!(!t.is_zone("cooling_device0"));
    assert_eq!(t.zone_label("thermal_zone0", &some(" x86_pkg_temp\n")), "x86_pkg_temp");
    assert_eq!(t.zone_label("thermal_zone0", &some("  ")), "thermal_zone0");
    assert_eq!(t.zone_label("thermal_zone0", &None), "thermal_zone0");
    assert_eq!(t.chip_name(&None), "sensor");
    assert_eq!(t.chip_name(&some(" coretemp\n")), "coretemp");
    assert_eq!(t.sensor_label(&some("Core 0\n"), "coretemp"), "Core 0");
    assert_eq!(t.sensor_label(&None, "coretemp"), "coretemp");
}

#[test]
fn display_server_kinds() {
    let base = || DisplayEnv {
        wayland_display: None,
        mir_socket: false,
        display: None,
        android: false,
        hyprland: false,
        swaysock: false,
        kde_full_session: false,
        xdg_current_desktop: None,
    };
    let d = DisplayServerModule;
    let mut e = base();
    e.wayland_display = some("wayland-0");
    e.hyprland = true;
    assert_eq!(d.collect(&e), some("Wayland (wayland-0) [Hyprland]"));
    let mut e = base();
    e.wayland_display = some("wayland-1");
    e.xdg_current_desktop = some("ubuntu:GNOME");
    assert_eq!(d.collect(&e), some("Wayland (wayland-1) [Mutter]"));
    let mut e = base();
    e.wayland_display = some("wayland-1");
    assert_eq!(d.collect(&e), some("Wayland (wayland-1)"));
    let mut e = base();
    e.wayland_display = some("");
    e.mir_socket = true;
    assert_eq!(d.collect(&e), some("Mir"));
    let mut e = base();
    e.display = some(":0");
    assert_eq!(d.collect(&e), some("X11 (:0)"));
    let mut e = base();
    e.android = true;
    assert_eq!(d.collect(&e), some("SurfaceFlinger (Android)"));
    assert_eq!(d.collect(&base()), some("TTY (no display server)"));
}
