//! RGB colors with saturating arithmetic: the shading framework's only
//! output type.  Channel math never wraps: sums cap at 255, scales clamp
//! into `[0, 255]`, and blends stay inside the segment between their
//! endpoints.
use vstd::prelude::*;

use vstd::arithmetic::div_mod::lemma_div_is_ordered;

use crate::fx::{fx_clamp01_spec, fx_ok, FX_ONE, FX_SAT};

verus! {

#[derive(Clone, Copy, PartialEq, Eq, Structural, Debug)]
pub struct Color {
    pub r: u8,
    pub g: u8,
    pub b: u8,
}

/// One channel scaled by a fixed-point factor, truncated and clamped into
/// `[0, 255]`; a non-positive factor darkens to zero.
pub open spec fn chan_scale_spec(ch: int, t: int) -> int {
    if t <= 0 {
        0
    } else {
        let v = (ch * t) / (FX_ONE as int);
        if v > 255 { 255 } else { v }
    }
}

/// One channel moved toward another by a blend factor clamped into the unit
/// interval.
pub open spec fn chan_lerp_spec(x: int, y: int, t: int) -> int {
    let tc = fx_clamp01_spec(t);
    if y >= x {
        x + ((y - x) * tc) / (FX_ONE as int)
    } else {
        x - ((x - y) * tc) / (FX_ONE as int)
    }
}

/// Saturating channel sum.
pub open spec fn chan_add_spec(x: int, y: int) -> int {
    if x + y > 255 { 255 } else { x + y }
}

pub open spec fn color_scale_spec(c: Color, t: int) -> Color {
    Color {
        r: chan_scale_spec(c.r as int, t) as u8,
        g: chan_scale_spec(c.g as int, t) as u8,
        b: chan_scale_spec(c.b as int, t) as u8,
    }
}

pub open spec fn color_add_spec(a: Color, b: Color) -> Color {
    Color {
        r: chan_add_spec(a.r as int, b.r as int) as u8,
        g: chan_add_spec(a.g as int, b.g as int) as u8,
        b: chan_add_spec(a.b as int, b.b as int) as u8,
    }
}

pub open spec fn color_lerp_spec(a: Color, b: Color, t: int) -> Color {
    Color {
        r: chan_lerp_spec(a.r as int, b.r as int, t) as u8,
        g: chan_lerp_spec(a.g as int, b.g as int, t) as u8,
        b: chan_lerp_spec(a.b as int, b.b as int, t) as u8,
    }
}

/// The packed `0xRRGGBB` form of a color.
pub open spec fn color_hex_spec(c: Color) -> int {
    (c.r as int) * 65536 + (c.g as int) * 256 + c.b as int
}

fn chan_scale(ch: u8, t: i64) -> (r: u8)
    requires
        fx_ok(t as int),
    ensures
        r == chan_scale_spec(ch as int, t as int),
{
    if t <= 0 {
        return 0;
    }
    proof {
        assert((ch as int) * (t as int) <= 255 * (FX_SAT as int)) by (nonlinear_arith)
            requires
                0 <= ch as int <= 255,
                0 <= t as int <= FX_SAT as int,
        ;
    }
    let v: u64 = (ch as u64) * (t as u64) / 65536;
    if v > 255 {
        255
    } else {
        v as u8
    }
}

fn chan_lerp(x: u8, y: u8, t: i64) -> (r: u8)
    requires
        0 <= t <= FX_ONE,
    ensures
        r == chan_lerp_spec(x as int, y as int, t as int),
{
    if y >= x {
        let d: u64 = (y - x) as u64;
        proof {
            assert((d as int) * (t as int) <= (d as int) * (FX_ONE as int)) by (nonlinear_arith)
                requires
                    0 <= t as int <= FX_ONE as int,
                    d as int >= 0,
            ;
            lemma_div_is_ordered((d as int) * (t as int), (d as int) * (FX_ONE as int), FX_ONE as int);
            assert((d as int) * (FX_ONE as int) / (FX_ONE as int) == d as int) by (nonlinear_arith);
        }
        let v: u64 = d * (t as u64) / 65536;
        x + (v as u8)
    } else {
        let d: u64 = (x - y) as u64;
        proof {
            assert((d as int) * (t as int) <= (d as int) * (FX_ONE as int)) by (nonlinear_arith)
                requires
                    0 <= t as int <= FX_ONE as int,
                    d as int >= 0,
            ;
            lemma_div_is_ordered((d as int) * (t as int), (d as int) * (FX_ONE as int), FX_ONE as int);
            assert((d as int) * (FX_ONE as int) / (FX_ONE as int) == d as int) by (nonlinear_arith);
        }
        let v: u64 = d * (t as u64) / 65536;
        x - (v as u8)
    }
}

impl Color {
    pub fn new(r: u8, g: u8, b: u8) -> (c: Color)
        ensures
            c == (Color { r, g, b }),
    {
        Color { r, g, b }
    }

    /// Pack into `0xRRGGBB`, the framebuffer's storage form.
    pub fn to_hex(&self) -> (h: u32)
        ensures
            h == color_hex_spec(*self),
    {
        (self.r as u32) * 65536 + (self.g as u32) * 256 + (self.b as u32)
    }

    /// Scale every channel by a fixed-point factor, clamping into `[0, 255]`.
    pub fn scale(&self, t: i64) -> (c: Color)
        requires
            fx_ok(t as int),
        ensures
            c == (color_scale_spec(*self, t as int)),
    {
        Color {
            r: chan_scale(self.r, t),
            g: chan_scale(self.g, t),
            b: chan_scale(self.b, t),
        }
    }

    /// Saturating channel-wise sum.
    pub fn add(&self, other: &Color) -> (c: Color)
        ensures
            c == (color_add_spec(*self, *other)),
    {
        let r: u16 = (self.r as u16) + (other.r as u16);
        let g: u16 = (self.g as u16) + (other.g as u16);
        let b: u16 = (self.b as u16) + (other.b as u16);
        Color {
            r: if r > 255 { 255 } else { r as u8 },
            g: if g > 255 { 255 } else { g as u8 },
            b: if b > 255 { 255 } else { b as u8 },
        }
    }

    /// Move channel-wise toward `other` by the factor `t`, which is clamped
    /// into the unit interval first.
    pub fn lerp(&self, other: &Color, t: i64) -> (c: Color)
        ensures
            c == (color_lerp_spec(*self, *other, t as int)),
    {
        let tc: i64 = if t < 0 {
            0
        } else if t > FX_ONE {
            FX_ONE
        } else {
            t
        };
        Color {
            r: chan_lerp(self.r, other.r, tc),
            g: chan_lerp(self.g, other.g, tc),
            b: chan_lerp(self.b, other.b, tc),
        }
    }
}

} // verus!
