//! Answers to a child that asks for the terminal's colors.

use vstd::prelude::*;
use crate::emulator::{Rgb, NAMED_BACKGROUND};

verus! {

/// A color from its three channels.
pub open spec fn rgb(r: int, g: int, b: int) -> Rgb {
    Rgb { r: r as u8, g: g as u8, b: b as u8 }
}

/// A gray of the given level.
pub open spec fn gray(level: u8) -> Rgb {
    Rgb { r: level, g: level, b: level }
}

/// Returns the gray of the given level.
pub fn gray_of(level: u8) -> (color: Rgb)
    ensures
        color == gray(level),
{
    Rgb { r: level, g: level, b: level }
}

/// The standard xterm palette for the sixteen ANSI colors.
pub open spec fn ansi_palette() -> Seq<Rgb> {
    seq![
        rgb(0x00, 0x00, 0x00),
        rgb(0x80, 0x00, 0x00),
        rgb(0x00, 0x80, 0x00),
        rgb(0x80, 0x80, 0x00),
        rgb(0x00, 0x00, 0x80),
        rgb(0x80, 0x00, 0x80),
        rgb(0x00, 0x80, 0x80),
        rgb(0xc0, 0xc0, 0xc0),
        rgb(0x80, 0x80, 0x80),
        rgb(0xff, 0x00, 0x00),
        rgb(0x00, 0xff, 0x00),
        rgb(0xff, 0xff, 0x00),
        rgb(0x00, 0x00, 0xff),
        rgb(0xff, 0x00, 0xff),
        rgb(0x00, 0xff, 0xff),
        rgb(0xff, 0xff, 0xff),
    ]
}

/// Gray level of the dark background reported when the host's real background is not known, so a
/// child still themes for a dark terminal (the common default).
pub const FALLBACK_BACKGROUND: u8 = 0x12;

/// Gray level of the light foreground reported when the host's colors are not known.
pub const FALLBACK_FOREGROUND: u8 = 0xd0;

/// Gray level of the foreground that contrasts with a light host background.
pub const ON_LIGHT_FOREGROUND: u8 = 0x10;

/// Gray level of the foreground that contrasts with a dark host background.
pub const ON_DARK_FOREGROUND: u8 = 0xe0;

/// The host terminal's default colors.
#[derive(Debug, Clone, Copy, PartialEq, Eq, Structural)]
pub struct HostColors {
    /// Background.
    pub background: Rgb,
    /// Foreground.
    pub foreground: Rgb,
}

impl HostColors {
    /// Returns the host colors for a detected background. Only the background
    /// is detected, so the foreground is derived to contrast with it; `light`
    /// says whether the background reads as light.
    pub fn of_background(background: Rgb, light: bool) -> (colors: HostColors)
        ensures
            colors.background == background,
            colors.foreground == (if light {
                gray(ON_LIGHT_FOREGROUND)
            } else {
                gray(ON_DARK_FOREGROUND)
            }),
    {
        HostColors {
            background,
            foreground: if light {
                gray_of(ON_LIGHT_FOREGROUND)
            } else {
                gray_of(ON_DARK_FOREGROUND)
            },
        }
    }
}

/// The level of one of the six steps of the color cube.
pub open spec fn cube_level(step: int) -> int {
    if step == 0 {
        0
    } else {
        step * 40 + 55
    }
}

/// One color of xterm's 6x6x6 color cube.
pub open spec fn cube(offset: int) -> Rgb {
    rgb(cube_level(offset / 36), cube_level((offset / 6) % 6), cube_level(offset % 6))
}

/// The color that answers a query: the xterm palette for its 256 slots, and
/// the host's background and foreground, or a dark fallback, for the named
/// defaults.
pub open spec fn query_color(index: int, host: Option<HostColors>) -> Rgb {
    if index < 16 {
        ansi_palette()[index]
    } else if index < 232 {
        cube(index - 16)
    } else if index < 256 {
        let level = (index - 232) * 10 + 8;
        rgb(level, level, level)
    } else if index == NAMED_BACKGROUND {
        match host {
            Some(colors) => colors.background,
            None => gray(FALLBACK_BACKGROUND),
        }
    } else {
        match host {
            Some(colors) => colors.foreground,
            None => gray(FALLBACK_FOREGROUND),
        }
    }
}

/// Returns the level of one of the six steps of the color cube.
fn cube_component(step: usize) -> (level: u8)
    requires
        step < 6,
    ensures
        level == cube_level(step as int),
{
    if step == 0 {
        0
    } else {
        (step * 40 + 55) as u8
    }
}

/// Returns one color of xterm's 6x6x6 color cube (palette slots 16 to 231,
/// passed here as an offset from the first).
pub fn cube_color(offset: usize) -> (color: Rgb)
    requires
        offset < 216,
    ensures
        color == cube(offset as int),
{
    Rgb {
        r: cube_component(offset / 36),
        g: cube_component((offset / 6) % 6),
        b: cube_component(offset % 6),
    }
}

/// Returns one of the sixteen ANSI colors.
fn ansi_color(index: usize) -> (color: Rgb)
    requires
        index < 16,
    ensures
        color == ansi_palette()[index as int],
{
    match index {
        0 => Rgb { r: 0x00, g: 0x00, b: 0x00 },
        1 => Rgb { r: 0x80, g: 0x00, b: 0x00 },
        2 => Rgb { r: 0x00, g: 0x80, b: 0x00 },
        3 => Rgb { r: 0x80, g: 0x80, b: 0x00 },
        4 => Rgb { r: 0x00, g: 0x00, b: 0x80 },
        5 => Rgb { r: 0x80, g: 0x00, b: 0x80 },
        6 => Rgb { r: 0x00, g: 0x80, b: 0x80 },
        7 => Rgb { r: 0xc0, g: 0xc0, b: 0xc0 },
        8 => Rgb { r: 0x80, g: 0x80, b: 0x80 },
        9 => Rgb { r: 0xff, g: 0x00, b: 0x00 },
        10 => Rgb { r: 0x00, g: 0xff, b: 0x00 },
        11 => Rgb { r: 0xff, g: 0xff, b: 0x00 },
        12 => Rgb { r: 0x00, g: 0x00, b: 0xff },
        13 => Rgb { r: 0xff, g: 0x00, b: 0xff },
        14 => Rgb { r: 0x00, g: 0xff, b: 0xff },
        _ => Rgb { r: 0xff, g: 0xff, b: 0xff },
    }
}

/// Resolves a color-query index to a color: the xterm 256-color palette for
/// its slots, and `host` background and foreground (or a dark fallback) for
/// the named default background and foreground.
pub fn resolve_color(index: usize, host: Option<HostColors>) -> (color: Rgb)
    ensures
        color == query_color(index as int, host),
{
    if index < 16 {
        ansi_color(index)
    } else if index < 232 {
        cube_color(index - 16)
    } else if index < 256 {
        let level: u8 = ((index - 232) * 10 + 8) as u8;
        Rgb { r: level, g: level, b: level }
    } else if index == NAMED_BACKGROUND {
        match host {
            Some(colors) => colors.background,
            None => gray_of(FALLBACK_BACKGROUND),
        }
    } else {
        match host {
            Some(colors) => colors.foreground,
            None => gray_of(FALLBACK_FOREGROUND),
        }
    }
}

/// The levels of the color cube are distinct and fit a channel, so the cube
/// holds no color twice.
pub proof fn cube_colors_are_distinct(a: int, b: int)
    requires
        0 <= a < 216,
        0 <= b < 216,
        cube(a) == cube(b),
    ensures
        a == b,
{
    assert(cube_level(a / 36) == cube_level(b / 36));
    assert(cube_level((a / 6) % 6) == cube_level((b / 6) % 6));
    assert(cube_level(a % 6) == cube_level(b % 6));
    assert(a / 36 == b / 36);
    assert((a / 6) % 6 == (b / 6) % 6);
    assert(a % 6 == b % 6);
    assert(a / 6 == (a / 36) * 6 + (a / 6) % 6) by (nonlinear_arith);
    assert(b / 6 == (b / 36) * 6 + (b / 6) % 6) by (nonlinear_arith);
}

} // verus!
