//! Colors with three 8-bit channels and saturating arithmetic.
//!
//! Addition and scaling clamp into `[0, 255]` and never wrap; packing into
//! a `0x00RRGGBB` word and unpacking from it are exact.

use vstd::prelude::*;

verus! {

use vstd::arithmetic::div_mod::lemma_div_nonincreasing;
use vstd::arithmetic::div_mod::lemma_div_pos_is_pos;
use crate::fx::{Fx, FX_ONE, FX_MUL_CAP, qdiv};

/// The spec-level image of a color: its channels as mathematical integers.
pub struct ColS {
    pub r: int,
    pub g: int,
    pub b: int,
}

/// Channel-wise saturating addition.
pub open spec fn add_col(a: ColS, b: ColS) -> ColS {
    ColS {
        r: if a.r + b.r > 255 { 255 } else { a.r + b.r },
        g: if a.g + b.g > 255 { 255 } else { a.g + b.g },
        b: if a.b + b.b > 255 { 255 } else { a.b + b.b },
    }
}

/// One channel scaled by a non-negative factor, clamped at 255.
pub open spec fn scale_ch(c: int, f: int) -> int {
    let v = qdiv(c * f, FX_ONE as int);
    if v > 255 {
        255
    } else {
        v
    }
}

/// Channel-wise scaling by a non-negative fixed-point factor.
pub open spec fn scale_col(a: ColS, f: int) -> ColS {
    ColS { r: scale_ch(a.r, f), g: scale_ch(a.g, f), b: scale_ch(a.b, f) }
}

/// The packed `0x00RRGGBB` word.
pub open spec fn hex_of(c: ColS) -> int {
    c.r * 65536 + c.g * 256 + c.b
}

/// The channels of a packed `0x00RRGGBB` word.
pub open spec fn col_of_hex(h: int) -> ColS {
    ColS { r: (h / 65536) % 256, g: (h / 256) % 256, b: h % 256 }
}

/// A display color with saturating channel arithmetic.
#[derive(Clone, Copy, PartialEq, Eq, Structural, Debug)]
pub struct Color {
    pub r: u8,
    pub g: u8,
    pub b: u8,
}

impl View for Color {
    type V = ColS;

    open spec fn view(&self) -> ColS {
        ColS { r: self.r as int, g: self.g as int, b: self.b as int }
    }
}

/// One exec channel scaled by a non-negative factor, clamped at 255.
fn scale_ch_e(c: u8, f: Fx) -> (r: u8)
    requires
        0 <= f@ <= FX_MUL_CAP as int,
    ensures
        r as int == scale_ch(c as int, f@),
{
    proof {
        assert(0 <= (c as int) * f@ <= 255 * (FX_MUL_CAP as int)) by (nonlinear_arith)
            requires
                0 <= c as int <= 255,
                0 <= f@ <= FX_MUL_CAP as int,
        ;
    }
    let p: i128 = (c as i128) * f.0;
    let q: u128 = (p as u128) / 65536u128;
    proof {
        lemma_div_nonincreasing(p as int, 65536);
        lemma_div_pos_is_pos(p as int, 65536);
    }
    if q > 255 {
        255u8
    } else {
        q as u8
    }
}

impl Color {
    pub fn new(r: u8, g: u8, b: u8) -> (c: Color)
        ensures
            c@ == (ColS { r: r as int, g: g as int, b: b as int }),
    {
        Color { r, g, b }
    }

    pub fn black() -> (c: Color)
        ensures
            c@ == (ColS { r: 0, g: 0, b: 0 }),
    {
        Color { r: 0, g: 0, b: 0 }
    }

    /// Saturating channel-wise addition.
    pub fn add(self, o: Color) -> (c: Color)
        ensures
            c@ == add_col(self@, o@),
    {
        let r: u16 = self.r as u16 + o.r as u16;
        let g: u16 = self.g as u16 + o.g as u16;
        let b: u16 = self.b as u16 + o.b as u16;
        Color {
            r: if r > 255 { 255u8 } else { r as u8 },
            g: if g > 255 { 255u8 } else { g as u8 },
            b: if b > 255 { 255u8 } else { b as u8 },
        }
    }

    /// Scaling by a non-negative fixed-point factor, saturating at white.
    pub fn scale(self, f: Fx) -> (c: Color)
        requires
            0 <= f@ <= FX_MUL_CAP as int,
        ensures
            c@ == scale_col(self@, f@),
    {
        Color { r: scale_ch_e(self.r, f), g: scale_ch_e(self.g, f), b: scale_ch_e(self.b, f) }
    }

    /// The packed `0x00RRGGBB` word for the display buffer.
    pub fn to_hex(self) -> (h: u32)
        ensures
            h as int == hex_of(self@),
    {
        (self.r as u32) * 65536 + (self.g as u32) * 256 + (self.b as u32)
    }

    /// The color held in a packed `0x00RRGGBB` word.
    pub fn from_hex(h: u32) -> (c: Color)
        ensures
            c@ == col_of_hex(h as int),
    {
        Color {
            r: ((h / 65536) % 256) as u8,
            g: ((h / 256) % 256) as u8,
            b: (h % 256) as u8,
        }
    }
}

} // verus!
