//! The display server module: Wayland (with its compositor), Mir, X11,
//! Android's SurfaceFlinger, or none.

use vstd::prelude::*;
use crate::modules::{ModuleKind, kind_name};
use crate::style::{lowercase, to_lowercase};
use crate::text::{concat3, contains, contains_seq, opt_str, owned, push_str};

verus! {

/// Shows the display server.
pub struct DisplayServerModule;

/// The session variables and checks the module reads.
pub struct DisplayEnv {
    /// `$WAYLAND_DISPLAY`.
    pub wayland_display: Option<String>,
    /// `$MIR_SOCKET` is set.
    pub mir_socket: bool,
    /// `$DISPLAY`.
    pub display: Option<String>,
    /// `$TERMUX_VERSION` is set or `/system/build.prop` exists.
    pub android: bool,
    /// `$HYPRLAND_INSTANCE_SIGNATURE` is set.
    pub hyprland: bool,
    /// `$SWAYSOCK` is set.
    pub swaysock: bool,
    /// `$KDE_FULL_SESSION` is set.
    pub kde_full_session: bool,
    /// `$XDG_CURRENT_DESKTOP`.
    pub xdg_current_desktop: Option<String>,
}

/// The Wayland compositor the variables point to, or empty text.
pub open spec fn compositor_of(env: DisplayEnv) -> Seq<char> {
    if env.hyprland {
        "Hyprland"@
    } else if env.swaysock {
        "Sway"@
    } else if env.kde_full_session {
        "KWin"@
    } else {
        match opt_str(env.xdg_current_desktop) {
            Some(de) => if contains_seq(lowercase(de), "gnome"@) {
                "Mutter"@
            } else if contains_seq(lowercase(de), "kde"@) {
                "KWin"@
            } else if contains_seq(lowercase(de), "sway"@) {
                "Sway"@
            } else {
                Seq::empty()
            },
            None => Seq::empty(),
        }
    }
}

/// What the module shows.
pub open spec fn display_text(env: DisplayEnv) -> Seq<char> {
    match opt_str(env.wayland_display) {
        Some(d) if d.len() > 0 => if compositor_of(env).len() == 0 {
            "Wayland ("@ + d + ")"@
        } else {
            "Wayland ("@ + d + ") ["@ + compositor_of(env) + "]"@
        },
        _ => if env.mir_socket {
            "Mir"@
        } else {
            match opt_str(env.display) {
                Some(d) if d.len() > 0 => "X11 ("@ + d + ")"@,
                _ => if env.android {
                    "SurfaceFlinger (Android)"@
                } else {
                    "TTY (no display server)"@
                },
            }
        },
    }
}

/// The Wayland compositor the variables point to, or empty text.
pub fn detect_wayland_compositor(env: &DisplayEnv) -> (r: String)
    ensures
        r@ == compositor_of(*env),
{
    if env.hyprland {
        return owned("Hyprland");
    }
    if env.swaysock {
        return owned("Sway");
    }
    if env.kde_full_session {
        return owned("KWin");
    }
    match &env.xdg_current_desktop {
        Some(de) => {
            if contains(to_lowercase(de.as_str()).as_str(), "gnome") {
                return owned("Mutter");
            }
            if contains(to_lowercase(de.as_str()).as_str(), "kde") {
                return owned("KWin");
            }
            if contains(to_lowercase(de.as_str()).as_str(), "sway") {
                return owned("Sway");
            }
            String::new()
        },
        None => String::new(),
    }
}

impl DisplayServerModule {
    /// The module's title.
    pub fn name(&self) -> (r: &'static str)
        ensures
            r == kind_name(ModuleKind::DisplayServer),
    {
        "Display"
    }

    /// The display server text for the session.
    pub fn collect(&self, env: &DisplayEnv) -> (r: Option<String>)
        ensures
            r matches Some(t) && t@ == display_text(*env),
    {
        match &env.wayland_display {
            Some(d) => if !d.as_str().is_empty() {
                let c = detect_wayland_compositor(env);
                if c.as_str().is_empty() {
                    return Some(concat3("Wayland (", d.as_str(), ")"));
                } else {
                    let mut r = concat3("Wayland (", d.as_str(), ") [");
                    push_str(&mut r, c.as_str());
                    push_str(&mut r, "]");
                    return Some(r);
                }
            },
            None => {},
        }
        if env.mir_socket {
            return Some(owned("Mir"));
        }
        match &env.display {
            Some(d) => if !d.as_str().is_empty() {
                return Some(concat3("X11 (", d.as_str(), ")"));
            },
            None => {},
        }
        if env.android {
            return Some(owned("SurfaceFlinger (Android)"));
        }
        Some(owned("TTY (no display server)"))
    }
}

} // verus!
