//! The framebuffer: a row-major grid of packed pixels the renderer writes
//! and a display collaborator presents.

use vstd::prelude::*;

verus! {

use crate::color::{Color, hex_of};
use crate::fx::{FX_ONE, fx_in, qdiv, iabs, FX_MUL_CAP};
use crate::vec3::{Vec3, V3i, v3_in};

/// The pixel grid is exactly `width * height`, row-major.
pub open spec fn fb_wf(width: int, height: int, buffer: Seq<u32>) -> bool {
    buffer.len() == width * height
}

/// A rectangular grid of packed `0x00RRGGBB` pixels.
pub struct Framebuffer {
    /// The width in pixels.
    pub width: usize,
    /// The height in pixels.
    pub height: usize,
    /// The pixels, row-major.
    pub buffer: Vec<u32>,
    /// The color the point and line primitives draw with.
    pub pen: u32,
}

impl Framebuffer {
    /// A framebuffer filled with a background color.
    pub fn new(width: usize, height: usize, background: Color) -> (fb: Framebuffer)
        requires
            width * height <= usize::MAX,
        ensures
            fb.width == width,
            fb.height == height,
            fb_wf(width as int, height as int, fb.buffer@),
            forall|i: int|
                0 <= i < fb.buffer@.len() ==> fb.buffer@[i] as int == hex_of(background@),
            fb.pen == 0xFFFFFFu32,
    {
        let bg = background.to_hex();
        let mut buffer: Vec<u32> = Vec::new();
        let n: usize = width * height;
        let mut i: usize = 0;
        while i < n
            invariant
                i <= n,
                buffer@.len() == i as int,
                forall|k: int| 0 <= k < i as int ==> buffer@[k] as int == hex_of(background@),
                bg as int == hex_of(background@),
            decreases n - i,
        {
            buffer.push(bg);
            i = i + 1;
        }
        Framebuffer { width, height, buffer, pen: 0xFFFFFFu32 }
    }

    /// Picks the color the drawing primitives use.
    pub fn set_pen(&mut self, color: Color)
        ensures
            final(self).pen as int == hex_of(color@),
            final(self).width == old(self).width,
            final(self).height == old(self).height,
            final(self).buffer == old(self).buffer,
    {
        self.pen = color.to_hex();
    }

    /// Writes one pen-colored pixel; a point outside the grid is ignored.
    pub fn draw_point(&mut self, x: usize, y: usize)
        requires
            fb_wf(old(self).width as int, old(self).height as int, old(self).buffer@),
        ensures
            final(self).width == old(self).width,
            final(self).height == old(self).height,
            final(self).pen == old(self).pen,
            final(self).buffer@ == crate::framebuffer::draw_point_s(
                old(self).buffer@,
                old(self).width as int,
                old(self).height as int,
                x as int,
                y as int,
                old(self).pen,
            ),
            fb_wf(final(self).width as int, final(self).height as int, final(self).buffer@),
    {
        if x < self.width && y < self.height {
            proof {
                assert(0 <= (y as int) * (self.width as int) + (x as int) < (self.width as int) * (
                self.height as int)) by (nonlinear_arith)
                    requires
                        0 <= (x as int) < self.width as int,
                        0 <= (y as int) < self.height as int,
                ;
            }
            let n: usize = self.buffer.len();
            let i: usize = y * self.width + x;
            let pen = self.pen;
            self.buffer[i] = pen;
        }
    }
}

/// What one point write leaves in the buffer: the pen at the row-major
/// cell, or the buffer untouched for a point off the grid.
pub open spec fn draw_point_s(buf: Seq<u32>, w: int, h: int, x: int, y: int, pen: u32) -> Seq<
    u32,
> {
    if 0 <= x < w && 0 <= y < h && 0 <= y * w + x < buf.len() {
        buf.update(y * w + x, pen)
    } else {
        buf
    }
}


/// What the Bresenham walk leaves in the buffer after at most `steps`
/// more moves: draw the current cell, stop at the end point or on an
/// exhausted budget, otherwise advance by the error rule and go on. The
/// budget `dx + dy` is exactly the number of moves the walk needs.
pub open spec fn line_steps(
    buf: Seq<u32>,
    w: int,
    h: int,
    pen: u32,
    x1: int,
    y1: int,
    x2: int,
    y2: int,
    dx: int,
    dy: int,
    sx: int,
    sy: int,
    err: int,
    steps: nat,
) -> Seq<u32>
    decreases steps,
{
    let b2 = draw_point_s(buf, w, h, x1, y1, pen);
    if (x1 == x2 && y1 == y2) || steps == 0 {
        b2
    } else {
        let e2 = 2 * err;
        let err1 = if e2 > -dy {
            err - dy
        } else {
            err
        };
        let x1b = if e2 > -dy {
            x1 + sx
        } else {
            x1
        };
        let err2 = if e2 < dx {
            err1 + dx
        } else {
            err1
        };
        let y1b = if e2 < dx {
            y1 + sy
        } else {
            y1
        };
        line_steps(b2, w, h, pen, x1b, y1b, x2, y2, dx, dy, sx, sy, err2, (steps - 1) as nat)
    }
}

/// What drawing a pen line between two world points leaves in the buffer:
/// the points' x and y truncate to cells, and the Bresenham walk runs
/// between them.
pub open spec fn line_s(buf: Seq<u32>, w: int, h: int, pen: u32, start: V3i, end: V3i) -> Seq<
    u32,
> {
    let x1 = qdiv(start.x, FX_ONE as int);
    let y1 = qdiv(start.y, FX_ONE as int);
    let x2 = qdiv(end.x, FX_ONE as int);
    let y2 = qdiv(end.y, FX_ONE as int);
    let dx = iabs(x2 - x1);
    let dy = iabs(y2 - y1);
    let sx: int = if x1 < x2 {
        1
    } else {
        -1
    };
    let sy: int = if y1 < y2 {
        1
    } else {
        -1
    };
    line_steps(buf, w, h, pen, x1, y1, x2, y2, dx, dy, sx, sy, dx - dy, (dx + dy) as nat)
}

/// Something a pen line can be drawn on.
pub trait Line {
    /// Draws a straight pen line between two points given in world
    /// coordinates, clipped to the grid cell by cell.
    fn line(&mut self, start: Vec3, end: Vec3);
}

impl Framebuffer {
    /// Draws a pen line between two points; mirrors `line_s`.
    pub fn draw_line(&mut self, start: Vec3, end: Vec3)
        requires
            fb_wf(old(self).width as int, old(self).height as int, old(self).buffer@),
            v3_in(start@, FX_MUL_CAP as int),
            v3_in(end@, FX_MUL_CAP as int),
        ensures
            final(self).width == old(self).width,
            final(self).height == old(self).height,
            final(self).pen == old(self).pen,
            final(self).buffer@ == line_s(
                old(self).buffer@,
                old(self).width as int,
                old(self).height as int,
                old(self).pen,
                start@,
                end@,
            ),
            fb_wf(final(self).width as int, final(self).height as int, final(self).buffer@),
    {
        let mut x1: i128 = crate::fx::scale_down(start.x.0);
        let mut y1: i128 = crate::fx::scale_down(start.y.0);
        let x2: i128 = crate::fx::scale_down(end.x.0);
        let y2: i128 = crate::fx::scale_down(end.y.0);
        let dx: i128 = if x2 >= x1 {
            x2 - x1
        } else {
            x1 - x2
        };
        let dy: i128 = if y2 >= y1 {
            y2 - y1
        } else {
            y1 - y2
        };
        let sx: i128 = if x1 < x2 {
            1
        } else {
            -1
        };
        let sy: i128 = if y1 < y2 {
            1
        } else {
            -1
        };
        let mut err: i128 = dx - dy;
        let mut steps: i128 = dx + dy;
        let ghost buf0 = self.buffer@;
        loop
            invariant
                fb_wf(self.width as int, self.height as int, self.buffer@),
                self.width == old(self).width,
                self.height == old(self).height,
                self.pen == old(self).pen,
                self.buffer@.len() == buf0.len(),
                0 <= steps <= dx + dy,
                0 <= dx <= 36028797018963968,
                0 <= dy <= 36028797018963968,
                -(36028797018963968 + (dx + dy - steps)) <= x1 <= 36028797018963968 + (dx + dy
                    - steps),
                -(36028797018963968 + (dx + dy - steps)) <= y1 <= 36028797018963968 + (dx + dy
                    - steps),
                fx_in(x2 as int, 36028797018963968),
                fx_in(y2 as int, 36028797018963968),
                -2 * dy <= err <= 2 * dx,
                sx == 1 || sx == -1,
                sy == 1 || sy == -1,
                line_s(
                    buf0,
                    old(self).width as int,
                    old(self).height as int,
                    old(self).pen,
                    start@,
                    end@,
                ) == line_steps(
                    self.buffer@,
                    old(self).width as int,
                    old(self).height as int,
                    old(self).pen,
                    x1 as int,
                    y1 as int,
                    x2 as int,
                    y2 as int,
                    dx as int,
                    dy as int,
                    sx as int,
                    sy as int,
                    err as int,
                    steps as nat,
                ),
            ensures
                self.width == old(self).width,
                self.height == old(self).height,
                self.pen == old(self).pen,
                fb_wf(self.width as int, self.height as int, self.buffer@),
                self.buffer@ == line_s(
                    buf0,
                    old(self).width as int,
                    old(self).height as int,
                    old(self).pen,
                    start@,
                    end@,
                ),
            decreases steps,
        {
            if 0 <= x1 && x1 < self.width as i128 && 0 <= y1 && y1 < self.height as i128 {
                self.draw_point(x1 as usize, y1 as usize);
            }
            if x1 == x2 && y1 == y2 {
                break;
            }
            if steps == 0 {
                break;
            }
            let e2: i128 = 2 * err;
            if e2 > -dy {
                err = err - dy;
                x1 = x1 + sx;
            }
            if e2 < dx {
                err = err + dx;
                y1 = y1 + sy;
            }
            steps = steps - 1;
        }
    }
}

impl Line for Framebuffer {
    fn line(&mut self, start: Vec3, end: Vec3) {
        let cells = self.width.checked_mul(self.height);
        let n: usize = self.buffer.len();
        let ok_grid = match cells {
            Some(c) => n == c,
            None => false,
        };
        let cap: i128 = FX_MUL_CAP;
        let ok_start = -cap <= start.x.0 && start.x.0 <= cap && -cap <= start.y.0 && start.y.0
            <= cap && -cap <= start.z.0 && start.z.0 <= cap;
        let ok_end = -cap <= end.x.0 && end.x.0 <= cap && -cap <= end.y.0 && end.y.0 <= cap
            && -cap <= end.z.0 && end.z.0 <= cap;
        if ok_grid && ok_start && ok_end {
            self.draw_line(start, end);
        }
    }
}

} // verus!
