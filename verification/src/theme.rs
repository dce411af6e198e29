//! System theme detection results and the tray-icon decisions derived from
//! them. Probing the operating system is the application's concern; the
//! decisions taken on a probe's outcome live here.

use crate::text::{push_decimal, push_str_chars, spec_decimal, string_of};
use vstd::prelude::*;

verus! {

#[derive(Debug, Clone, Copy, PartialEq, Eq, Structural)]
pub enum SystemTheme {
    Light,
    Dark,
}

impl SystemTheme {
    /// The theme's name as the front end expects it.
    pub fn as_str(&self) -> (r: &'static str)
        ensures
            r@ == match self {
                SystemTheme::Light => "light"@,
                SystemTheme::Dark => "dark"@,
            },
    {
        match self {
            SystemTheme::Light => "light",
            SystemTheme::Dark => "dark",
        }
    }
}

/// The theme read off a registry probe's outcome: a probe that failed in
/// any way falls back to the light theme; a probe that yielded one means
/// light, anything else dark.
pub fn theme_from_probe(probe: Option<u32>) -> (r: SystemTheme)
    ensures
        r == match probe {
            Some(v) => if v == 1 {
                SystemTheme::Light
            } else {
                SystemTheme::Dark
            },
            None => SystemTheme::Light,
        },
{
    match probe {
        Some(v) => if v == 1 {
            SystemTheme::Light
        } else {
            SystemTheme::Dark
        },
        None => SystemTheme::Light,
    }
}

/// The system theme on platforms without a probe: the light theme.
pub fn get_system_theme() -> (r: Result<SystemTheme, String>)
    ensures
        r == Result::<SystemTheme, String>::Ok(SystemTheme::Light),
{
    Ok(SystemTheme::Light)
}

/// Whether the system is dark-themed, on platforms without a probe: it is
/// not.
pub fn is_dark_theme() -> (r: bool)
    ensures
        r == false,
{
    false
}

/// The tray icon's pixel size for a display's dots-per-inch value: larger
/// icons at higher scale factors.
pub open spec fn spec_icon_size(dpi: u32) -> u32 {
    if dpi >= 192 {
        32u32
    } else if dpi >= 144 {
        24u32
    } else if dpi >= 120 {
        20u32
    } else {
        16u32
    }
}

/// Choose the icon size for a display; the thresholds are 200%, 150% and
/// 125% of the 96-dpi baseline.
pub fn icon_size_for_dpi(dpi: u32) -> (r: u32)
    ensures
        r == spec_icon_size(dpi),
{
    if dpi >= 192 {
        32
    } else if dpi >= 144 {
        24
    } else if dpi >= 120 {
        20
    } else {
        16
    }
}

/// The asset name of the tray icon for a theme and size; sizes without a
/// dedicated asset fall back to the largest.
pub open spec fn spec_tray_icon_name(theme: SystemTheme, size: u32) -> Seq<char> {
    let stem = match theme {
        SystemTheme::Light => "tray_light_"@,
        SystemTheme::Dark => "tray_dark_"@,
    };
    let actual = if size == 16 || size == 20 || size == 24 {
        size
    } else {
        32u32
    };
    stem + spec_decimal(actual as nat) + ".png"@
}

/// The tray icon asset to load for a theme and size.
pub fn tray_icon_name(theme: SystemTheme, size: u32) -> (r: String)
    ensures
        r@ == spec_tray_icon_name(theme, size),
{
    let mut out: Vec<char> = Vec::new();
    match theme {
        SystemTheme::Light => push_str_chars(&mut out, "tray_light_"),
        SystemTheme::Dark => push_str_chars(&mut out, "tray_dark_"),
    }
    let actual: u32 = if size == 16 || size == 20 || size == 24 {
        size
    } else {
        32
    };
    push_decimal(&mut out, actual as usize);
    push_str_chars(&mut out, ".png");
    proof {
        assert(out@ =~= spec_tray_icon_name(theme, size));
    }
    string_of(&out)
}

} // verus!
