//! What the host's configuration means for the toolkit: the theme, the scale
//! between pixels and points, the size of the screen in points and the window
//! margin.
//!
//! Pixels-per-point is the density in dpi over the platform's base density of
//! 160 dpi, not rounded. Lengths in points are kept as exact fractions; the
//! caller turns them into the toolkit's floating-point units.

use egui::{Margin, Theme};
use vstd::prelude::*;

verus! {

/// The density, in dpi, at which one point is one pixel.
pub const BASE_DENSITY: u32 = 160;

/// The margin above the content, in points.
pub const TOP_MARGIN: i8 = 127;

/// The host's night mode setting.
#[derive(Clone, Copy, Debug, PartialEq, Eq, Structural)]
pub enum NightMode {
    No,
    Yes,
    /// Unset, or a value the library does not know.
    Other,
}

/// The system theme that a night mode setting asks for.
pub open spec fn theme_of(night: NightMode) -> Option<Theme> {
    match night {
        NightMode::No => Some(Theme::Light),
        NightMode::Yes => Some(Theme::Dark),
        NightMode::Other => None,
    }
}

/// The system theme to report to the toolkit.
pub fn system_theme(night: NightMode) -> (r: Option<Theme>)
    ensures
        r == theme_of(night),
{
    match night {
        NightMode::No => Some(Theme::Light),
        NightMode::Yes => Some(Theme::Dark),
        NightMode::Other => None,
    }
}

/// Pixels per point, as the fraction `pixels / points`.
#[derive(Clone, Copy, Debug, PartialEq, Eq, Structural)]
pub struct Scale {
    pub pixels: u32,
    pub points: u32,
}

impl Scale {
    /// Both terms are positive.
    pub open spec fn wf(self) -> bool {
        self.pixels > 0 && self.points > 0
    }
}

/// The scale for a screen density: the density over the base density, or one
/// pixel per point where the host reports no (or a zero) density.
pub open spec fn scale_of(density: Option<u32>) -> Scale {
    match density {
        Some(d) => if d > 0 {
            Scale { pixels: d, points: BASE_DENSITY }
        } else {
            Scale { pixels: 1, points: 1 }
        },
        None => Scale { pixels: 1, points: 1 },
    }
}

/// The scale between pixels and points for a screen density in dpi.
pub fn pixels_per_point(density: Option<u32>) -> (r: Scale)
    ensures
        r == scale_of(density),
        r.wf(),
{
    match density {
        Some(d) => if d > 0 {
            Scale { pixels: d, points: BASE_DENSITY }
        } else {
            Scale { pixels: 1, points: 1 }
        },
        None => Scale { pixels: 1, points: 1 },
    }
}

/// A length in points, as the exact fraction `numer / denom`.
#[derive(Clone, Copy, Debug, PartialEq, Eq, Structural)]
pub struct Points {
    pub numer: u64,
    pub denom: u64,
}

impl Points {
    /// The whole number of points, where the length is one.
    pub fn whole(&self) -> (r: Option<u64>)
        requires
            self.denom > 0,
        ensures
            r == if self.numer % self.denom == 0 {
                Some((self.numer / self.denom) as u64)
            } else {
                None
            },
    {
        if self.numer % self.denom == 0 {
            Some(self.numer / self.denom)
        } else {
            None
        }
    }
}

/// Converts a length in pixels to points.
pub fn to_points(pixels: u32, scale: Scale) -> (r: Points)
    requires
        scale.wf(),
    ensures
        r.numer == pixels * scale.points,
        r.denom == scale.pixels,
{
    assert(pixels * scale.points <= u32::MAX * u32::MAX) by (nonlinear_arith)
        requires
            pixels <= u32::MAX,
            scale.points <= u32::MAX,
    ;
    Points { numer: pixels as u64 * scale.points as u64, denom: scale.pixels as u64 }
}

/// The size of the screen in points, for a window of the given size in
/// pixels.
pub fn screen_size(width: u32, height: u32, scale: Scale) -> (r: (Points, Points))
    requires
        scale.wf(),
    ensures
        r.0 == to_points_of(width, scale),
        r.1 == to_points_of(height, scale),
{
    (to_points(width, scale), to_points(height, scale))
}

/// A length in pixels, in points.
pub open spec fn to_points_of(pixels: u32, scale: Scale) -> Points {
    Points { numer: (pixels * scale.points) as u64, denom: scale.pixels as u64 }
}

/// `x / d` rounded toward zero.
pub open spec fn div_toward_zero(x: int, d: int) -> int {
    if x >= 0 {
        x / d
    } else {
        -((-x) / d)
    }
}

/// `v` brought into the range of `i8`.
pub open spec fn saturate_i8(v: int) -> i8 {
    if v > i8::MAX {
        i8::MAX
    } else if v < i8::MIN {
        i8::MIN
    } else {
        v as i8
    }
}

/// The window margin: on the left, the left edge of the content area in
/// points, rounded toward zero and held to the range of `i8`; at the top,
/// `TOP_MARGIN`; none on the right and at the bottom.
pub open spec fn margin_of(content_left: i32, scale: Scale) -> Margin {
    Margin {
        left: saturate_i8(div_toward_zero(content_left * scale.points, scale.pixels as int)),
        right: 0,
        top: TOP_MARGIN,
        bottom: 0,
    }
}

/// The window margin for the content area whose left edge is at
/// `content_left` pixels.
pub fn window_margin(content_left: i32, scale: Scale) -> (r: Margin)
    requires
        scale.wf(),
    ensures
        r == margin_of(content_left, scale),
{
    let magnitude: u64 = if content_left >= 0 {
        content_left as u64
    } else {
        (-(content_left as i64)) as u64
    };
    assert(magnitude * scale.points <= 2147483648 * u32::MAX) by (nonlinear_arith)
        requires
            magnitude <= 2147483648,
            scale.points <= u32::MAX,
    ;
    assert(magnitude * scale.points == if content_left >= 0 {
        content_left * scale.points
    } else {
        -(content_left * scale.points)
    }) by (nonlinear_arith)
        requires
            magnitude == if content_left >= 0 {
                content_left as int
            } else {
                -content_left
            },
    ;
    let q: u64 = magnitude * scale.points as u64 / scale.pixels as u64;
    let left: i8 = if content_left >= 0 {
        if q > 127 {
            127
        } else {
            q as i8
        }
    } else {
        if q > 128 {
            -128
        } else {
            (-(q as i64)) as i8
        }
    };
    Margin { left, right: 0, top: TOP_MARGIN, bottom: 0 }
}

} // verus!
