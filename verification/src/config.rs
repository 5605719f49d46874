//! The settings values the library decides on: GUI themes and the TLS mode.

use vstd::prelude::*;
use crate::text::{chars_eq_str, chars_of};

verus! {

/// The themes of the GUI, in the order of the theme list.
#[derive(Clone, Copy, Debug, PartialEq, Eq, Structural)]
pub enum ThemeType {
    Aero,
    AquaClassic,
    Blue,
    Classic,
    Dark,
    Greybird,
    HighContrast,
    Metro,
}

/// The number of themes.
pub const THEME_COUNT: usize = 8;

/// The position of a theme in the theme list.
pub open spec fn theme_index(t: ThemeType) -> int {
    match t {
        ThemeType::Aero => 0,
        ThemeType::AquaClassic => 1,
        ThemeType::Blue => 2,
        ThemeType::Classic => 3,
        ThemeType::Dark => 4,
        ThemeType::Greybird => 5,
        ThemeType::HighContrast => 6,
        ThemeType::Metro => 7,
    }
}

/// The theme at a position of the theme list (`Metro` past its end).
pub open spec fn theme_at(i: int) -> ThemeType {
    if i <= 0 {
        ThemeType::Aero
    } else if i == 1 {
        ThemeType::AquaClassic
    } else if i == 2 {
        ThemeType::Blue
    } else if i == 3 {
        ThemeType::Classic
    } else if i == 4 {
        ThemeType::Dark
    } else if i == 5 {
        ThemeType::Greybird
    } else if i == 6 {
        ThemeType::HighContrast
    } else {
        ThemeType::Metro
    }
}

/// The theme list.
pub open spec fn theme_list() -> Seq<ThemeType> {
    Seq::new(THEME_COUNT as nat, |i: int| theme_at(i))
}

/// An index clamped into the theme list.
pub open spec fn clamp_theme_index(i: i32) -> int {
    if i < 0 {
        0
    } else if i > THEME_COUNT - 1 {
        THEME_COUNT - 1
    } else {
        i as int
    }
}

/// The name of a theme: its variant's name.
pub open spec fn theme_name(t: ThemeType) -> Seq<char> {
    match t {
        ThemeType::Aero => "Aero"@,
        ThemeType::AquaClassic => "AquaClassic"@,
        ThemeType::Blue => "Blue"@,
        ThemeType::Classic => "Classic"@,
        ThemeType::Dark => "Dark"@,
        ThemeType::Greybird => "Greybird"@,
        ThemeType::HighContrast => "HighContrast"@,
        ThemeType::Metro => "Metro"@,
    }
}

impl Default for ThemeType {
    fn default() -> (r: ThemeType)
        ensures
            r == ThemeType::Greybird,
    {
        ThemeType::Greybird
    }
}

impl ThemeType {
    /// The theme's name, as its variant is spelled.
    pub fn name(&self) -> (r: String)
        ensures
            r@ == theme_name(*self),
    {
        let s = match self {
            ThemeType::Aero => "Aero",
            ThemeType::AquaClassic => "AquaClassic",
            ThemeType::Blue => "Blue",
            ThemeType::Classic => "Classic",
            ThemeType::Dark => "Dark",
            ThemeType::Greybird => "Greybird",
            ThemeType::HighContrast => "HighContrast",
            ThemeType::Metro => "Metro",
        };
        s.to_owned()
    }

    /// The theme's position in the theme list.
    pub fn to_index(&self) -> (r: i32)
        ensures
            r == theme_index(*self),
            theme_list()[r as int] == *self,
    {
        match self {
            ThemeType::Aero => 0,
            ThemeType::AquaClassic => 1,
            ThemeType::Blue => 2,
            ThemeType::Classic => 3,
            ThemeType::Dark => 4,
            ThemeType::Greybird => 5,
            ThemeType::HighContrast => 6,
            ThemeType::Metro => 7,
        }
    }

    /// The theme at position `i` of the theme list, `i` clamped into the list.
    pub fn from_index(i: i32) -> (r: ThemeType)
        ensures
            r == theme_list()[clamp_theme_index(i)],
    {
        if i <= 0 {
            ThemeType::Aero
        } else if i == 1 {
            ThemeType::AquaClassic
        } else if i == 2 {
            ThemeType::Blue
        } else if i == 3 {
            ThemeType::Classic
        } else if i == 4 {
            ThemeType::Dark
        } else if i == 5 {
            ThemeType::Greybird
        } else if i == 6 {
            ThemeType::HighContrast
        } else {
            ThemeType::Metro
        }
    }

    /// Every theme, in list order.
    pub fn themes() -> (r: Vec<ThemeType>)
        ensures
            r@ == theme_list(),
    {
        let v = vec![
            ThemeType::Aero,
            ThemeType::AquaClassic,
            ThemeType::Blue,
            ThemeType::Classic,
            ThemeType::Dark,
            ThemeType::Greybird,
            ThemeType::HighContrast,
            ThemeType::Metro,
        ];
        assert(v@ =~= theme_list());
        v
    }
}

/// Law: a theme's index gives the theme back, and an index in the list is the index
/// of the theme there; every theme is in the list exactly once.
pub proof fn lemma_theme_index_roundtrip(t: ThemeType, i: i32)
    ensures
        theme_list()[clamp_theme_index(theme_index(t) as i32)] == t,
        0 <= i < THEME_COUNT ==> theme_index(theme_list()[i as int]) == i,
        forall|a: int, b: int| 0 <= a < b < THEME_COUNT ==> theme_list()[a] != theme_list()[b],
{
}

/// How the server offers TLS.
#[derive(Clone, Copy, Debug, PartialEq, Eq, Structural)]
pub enum TlsMode {
    Disabled,
    Auto,
    Certified,
}

impl Default for TlsMode {
    fn default() -> (r: TlsMode)
        ensures
            r == TlsMode::Disabled,
    {
        TlsMode::Disabled
    }
}

/// The TLS mode a `tls_mode` setting selects: `disabled`, `off` and `none` turn TLS
/// off, `certified` selects the configured certificate, and anything else (or no
/// setting) selects a self-signed certificate.
pub open spec fn spec_tls_mode(setting: Option<Seq<char>>) -> TlsMode {
    match setting {
        Some(s) => if s == "disabled"@ || s == "off"@ || s == "none"@ {
            TlsMode::Disabled
        } else if s == "certified"@ {
            TlsMode::Certified
        } else {
            TlsMode::Auto
        },
        None => TlsMode::Auto,
    }
}

/// Resolves the `tls_mode` setting.
pub fn resolve_tls_mode(setting: Option<&str>) -> (r: TlsMode)
    ensures
        r == spec_tls_mode(match setting {
            Some(s) => Some(s@),
            None => None,
        }),
{
    match setting {
        None => TlsMode::Auto,
        Some(s) => {
            let c = chars_of(s);
            let c = c.as_slice();
            if chars_eq_str(c, "disabled") || chars_eq_str(c, "off") || chars_eq_str(c, "none") {
                TlsMode::Disabled
            } else if chars_eq_str(c, "certified") {
                TlsMode::Certified
            } else {
                TlsMode::Auto
            }
        },
    }
}

/// Whether the command line names `--wayland-support` itself, which overrides the
/// detection from the session type.
pub fn wayland_flag_given(args: &Vec<String>) -> (r: bool)
    ensures
        r == exists|i: int| 0 <= i < args@.len() && args@[i]@ == "--wayland-support"@,
{
    let flag = "--wayland-support".to_owned();
    let mut i: usize = 0;
    while i < args.len()
        invariant
            i <= args@.len(),
            flag@ == "--wayland-support"@,
            forall|k: int| 0 <= k < i ==> args@[k]@ != "--wayland-support"@,
        decreases args@.len() - i,
    {
        if args[i] == flag {
            return true;
        }
        i = i + 1;
    }
    false
}

} // verus!
