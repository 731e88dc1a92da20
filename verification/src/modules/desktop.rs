//! The desktop module: the desktop environment and the display protocol,
//! from the session's environment variables.

use vstd::prelude::*;
use crate::modules::{ModuleKind, kind_name};
use crate::text::{concat3, opt_str, owned, push_str};

verus! {

/// Shows the desktop environment or window manager.
pub struct DesktopModule;

/// The session's desktop variables as the module reads them (`None` for an
/// unset variable).
pub struct DesktopEnv {
    pub xdg_current_desktop: Option<String>,
    pub desktop_session: Option<String>,
    pub gdm_session: Option<String>,
    pub wayland_display: Option<String>,
    pub display: Option<String>,
}

/// The first of three optional values that is present.
pub open spec fn first_of(a: Option<Seq<char>>, b: Option<Seq<char>>, c: Option<Seq<char>>) -> Option<
    Seq<char>,
> {
    if a is Some {
        a
    } else if b is Some {
        b
    } else {
        c
    }
}

/// The display protocol: Wayland when `WAYLAND_DISPLAY` is set, else X11
/// when `DISPLAY` is set.
pub open spec fn protocol_of(wayland: bool, x11: bool) -> Option<Seq<char>> {
    if wayland {
        Some("Wayland"@)
    } else if x11 {
        Some("X11"@)
    } else {
        None
    }
}

/// What the module shows: `"DE (protocol)"`, or whichever of the two is
/// known.
pub open spec fn desktop_text(de: Option<Seq<char>>, wm: Option<Seq<char>>) -> Option<Seq<char>> {
    match (de, wm) {
        (Some(d), Some(w)) => Some(d + " ("@ + w + ")"@),
        (Some(d), None) => Some(d),
        (None, Some(w)) => Some(w),
        (None, None) => None,
    }
}

impl DesktopModule {
    /// The module's title.
    pub fn name(&self) -> (r: &'static str)
        ensures
            r == kind_name(ModuleKind::Desktop),
    {
        "DE / WM"
    }

    /// The desktop text for the session's variables.
    pub fn collect(&self, env: DesktopEnv) -> (r: Option<String>)
        ensures
            opt_str(r) == desktop_text(
                first_of(
                    opt_str(env.xdg_current_desktop),
                    opt_str(env.desktop_session),
                    opt_str(env.gdm_session),
                ),
                protocol_of(env.wayland_display is Some, env.display is Some),
            ),
    {
        let de = match env.xdg_current_desktop {
            Some(d) => Some(d),
            None => match env.desktop_session {
                Some(d) => Some(d),
                None => env.gdm_session,
            },
        };
        let wm: Option<&str> = if env.wayland_display.is_some() {
            Some("Wayland")
        } else if env.display.is_some() {
            Some("X11")
        } else {
            None
        };
        match (de, wm) {
            (Some(d), Some(w)) => {
                let mut r = concat3(d.as_str(), " (", w);
                push_str(&mut r, ")");
                Some(r)
            },
            (Some(d), None) => Some(d),
            (None, Some(w)) => Some(owned(w)),
            (None, None) => None,
        }
    }
}

} // verus!
