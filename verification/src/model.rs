//! The mathematical model of a drawing surface.

use vstd::prelude::*;
use crate::pixel::Pixel;

verus! {

/// What a surface is, as a value: its dimensions, the current draw colour and
/// the pixels in row-major order with the origin at the top left.
pub struct Surface {
    pub width: nat,
    pub height: nat,
    pub color: Pixel,
    pub pixels: Seq<Pixel>,
}

impl Surface {
    /// There is exactly one pixel for every position.
    pub open spec fn wf(self) -> bool {
        self.pixels.len() == self.width * self.height
    }

    /// A freshly made surface: every pixel black, and black as draw colour.
    pub open spec fn blank(width: nat, height: nat) -> Surface {
        Surface {
            width,
            height,
            color: Pixel::black(),
            pixels: Seq::new(width * height, |i: int| Pixel::black()),
        }
    }

    /// Whether `(x, y)` names a position of the surface.
    pub open spec fn contains(self, x: int, y: int) -> bool {
        0 <= x < self.width && 0 <= y < self.height
    }

    /// Where position `(x, y)` lies in the row-major pixel sequence.
    pub open spec fn offset(self, x: int, y: int) -> int {
        y * self.width + x
    }

    /// The pixel at position `(x, y)`.
    pub open spec fn pixel(self, x: int, y: int) -> Pixel {
        self.pixels[self.offset(x, y)]
    }

    /// The surface with the draw colour replaced by the clamped levels.
    pub open spec fn set_color(self, r: int, g: int, b: int) -> Surface {
        Surface { color: Pixel::of_levels(r, g, b), ..self }
    }

    /// The surface after the draw colour is written at `(x, y)`. A position
    /// outside the surface leaves it as it is.
    pub open spec fn plot(self, x: int, y: int) -> Surface {
        if self.contains(x, y) {
            Surface { pixels: self.pixels.update(self.offset(x, y), self.color), ..self }
        } else {
            self
        }
    }

    /// The surface with every pixel replaced by `p`.
    pub open spec fn fill(self, p: Pixel) -> Surface {
        Surface { pixels: Seq::new(self.pixels.len(), |i: int| p), ..self }
    }

    /// The surface filled with the grey of `level`.
    pub open spec fn clear(self, level: int) -> Surface {
        self.fill(Pixel::grey(level))
    }

    /// The surface filled with the colour of the clamped levels.
    pub open spec fn clear_with_rgb(self, r: int, g: int, b: int) -> Surface {
        self.fill(Pixel::of_levels(r, g, b))
    }

    /// The number of bytes in one row of the packed form.
    pub open spec fn pitch(self) -> nat {
        3 * self.width
    }

    /// The packed form handed to a renderer or encoder: three bytes per pixel
    /// in the order red, green, blue, pixels in row-major order, no padding.
    pub open spec fn bytes(self) -> Seq<u8> {
        Seq::new(3 * self.pixels.len(), |k: int| self.pixels[k / 3].channel(k % 3))
    }
}

/// A position inside a `width` by `height` grid has its row-major offset
/// inside the grid's pixel sequence.
pub proof fn lemma_offset_in_range(x: int, y: int, width: int, height: int)
    requires
        0 <= x < width,
        0 <= y < height,
    ensures
        0 <= y * width + x < width * height,
{
    assert(0 <= y * width + x < width * height) by (nonlinear_arith)
        requires
            0 <= x < width,
            0 <= y < height,
    {
        assert((y + 1) * width <= height * width);
        assert(0 <= y * width);
    }
}

} // verus!
