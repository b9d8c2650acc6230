//! Decoded texture images: a rectangular grid of colors.
//!
//! Decoding image files is a collaborator's job; a texture enters the
//! library as plain width, height and pixel rows. A lookup outside the
//! image answers a magenta sentinel instead of failing, so a bad
//! coordinate shows up on screen without stopping a render.

use vstd::prelude::*;

verus! {

use crate::color::{Color, ColS};

/// The spec-level image of a texture.
pub struct TexS {
    pub width: int,
    pub height: int,
    pub pixels: Seq<ColS>,
}

/// The pixel grid is exactly `width * height`, row-major.
pub open spec fn tex_wf(t: TexS) -> bool {
    t.pixels.len() == t.width * t.height
}

/// The spec-level images of a texture registry.
pub open spec fn tex_views(ts: Seq<Texture>) -> Seq<TexS> {
    ts.map_values(|t: Texture| t@)
}

/// The sentinel color answered for a lookup outside the image.
pub open spec fn sentinel_col() -> ColS {
    ColS { r: 255, g: 0, b: 255 }
}

/// What a lookup answers: the row-major pixel, or the sentinel outside.
pub open spec fn tex_color(t: TexS, x: int, y: int) -> ColS {
    if x < 0 || y < 0 || x >= t.width || y >= t.height {
        sentinel_col()
    } else {
        t.pixels[y * t.width + x]
    }
}

/// A decoded texture image, row-major.
pub struct Texture {
    /// The image width in pixels.
    pub width: usize,
    /// The image height in pixels.
    pub height: usize,
    /// The pixel grid, row-major.
    pub pixels: Vec<Color>,
}

impl View for Texture {
    type V = TexS;

    open spec fn view(&self) -> TexS {
        TexS {
            width: self.width as int,
            height: self.height as int,
            pixels: self.pixels@.map_values(|c: Color| c@),
        }
    }
}

impl Texture {
    /// Wraps pixel rows decoded elsewhere; the grid must be rectangular.
    pub fn from_pixels(width: usize, height: usize, pixels: Vec<Color>) -> (t: Texture)
        requires
            pixels@.len() == width * height,
        ensures
            t@.width == width as int,
            t@.height == height as int,
            t@.pixels == pixels@.map_values(|c: Color| c@),
            tex_wf(t@),
    {
        Texture { width, height, pixels }
    }

    pub fn width(&self) -> (w: usize)
        ensures
            w as int == self@.width,
    {
        self.width
    }

    pub fn height(&self) -> (h: usize)
        ensures
            h as int == self@.height,
    {
        self.height
    }

    /// The pixel at `(x, y)`, or the magenta sentinel outside the image.
    pub fn get_color(&self, x: usize, y: usize) -> (c: Color)
        requires
            tex_wf(self@),
        ensures
            c@ == tex_color(self@, x as int, y as int),
    {
        if x >= self.width || y >= self.height {
            Color::new(255, 0, 255)
        } else {
            proof {
                assert(0 <= (y as int) * (self@.width) + (x as int) < self@.width * self@.height)
                    by (nonlinear_arith)
                    requires
                        0 <= (x as int) < self@.width,
                        0 <= (y as int) < self@.height,
                ;
            }
            let n: usize = self.pixels.len();
            let i: usize = y * self.width + x;
            self.pixels[i]
        }
    }

    /// A single black pixel: the fallback when no image could be decoded.
    pub fn black() -> (t: Texture)
        ensures
            tex_wf(t@),
            t@.width == 1,
            t@.height == 1,
            tex_color(t@, 0, 0) == (ColS { r: 0, g: 0, b: 0 }),
    {
        let mut pixels: Vec<Color> = Vec::new();
        pixels.push(Color::black());
        let t = Texture { width: 1, height: 1, pixels };
        proof {
            assert(t@.pixels.len() == 1);
            assert(t@.width * t@.height == 1) by (nonlinear_arith)
                requires
                    t@.width == 1,
                    t@.height == 1,
            ;
            assert(t@.pixels[0] == (ColS { r: 0, g: 0, b: 0 }));
        }
        t
    }
}

} // verus!
