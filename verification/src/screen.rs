//! The drawing surface itself.

use vstd::prelude::*;
use crate::error::IndexError;
use crate::model::{lemma_offset_in_range, Surface};
use crate::pixel::Pixel;
use crate::raw::{cast_cells, cell_of, pixel_of, read_cell};

verus! {

/// Whether a surface of these dimensions can be held: the byte size of one
/// row and of the whole frame must both fit in `usize`.
pub open spec fn frame_fits(width: nat, height: nat) -> bool {
    3 * width <= usize::MAX && 3 * (width * height) <= usize::MAX
}

/// A drawing surface of fixed dimensions with a current draw colour.
pub struct ScreenContextManager {
    framebuffer: Vec<[u8; 3]>,
    color: Pixel,
    width: u32,
    height: u32,
}

impl View for ScreenContextManager {
    type V = Surface;

    closed spec fn view(&self) -> Surface {
        Surface {
            width: self.width as nat,
            height: self.height as nat,
            color: self.color,
            pixels: Seq::new(self.framebuffer@.len(), |i: int| pixel_of(self.framebuffer@[i])),
        }
    }
}

impl ScreenContextManager {
    /// One storage cell per position, and a frame that can be addressed.
    #[verifier::type_invariant]
    spec fn inv(&self) -> bool {
        &&& self.framebuffer@.len() == self.width * self.height
        &&& frame_fits(self.width as nat, self.height as nat)
    }

    /// Makes a surface of `width` by `height` pixels, all black, with black as
    /// the draw colour. Dimensions whose frame could not be addressed give
    /// `None`.
    pub fn new(width: u32, height: u32) -> (made: Option<ScreenContextManager>)
        ensures
            made is Some <==> frame_fits(width as nat, height as nat),
            made matches Some(s) ==> s@ == Surface::blank(width as nat, height as nat) && s@.wf(),
    {
        let row = (width as usize).checked_mul(3);
        let cells = (width as usize).checked_mul(height as usize);
        if row.is_none() || cells.is_none() {
            return None;
        }
        let count: usize = cells.unwrap();
        if count.checked_mul(3).is_none() {
            return None;
        }
        let mut framebuffer: Vec<[u8; 3]> = Vec::with_capacity(count);
        let mut done: usize = 0;
        while done < count
            invariant
                done <= count,
                framebuffer@.len() == done,
                forall|i: int|
                    0 <= i < done ==> pixel_of(#[trigger] framebuffer@[i]) == Pixel::black(),
            decreases count - done,
        {
            framebuffer.push(cell_of(Pixel { r: 0, g: 0, b: 0 }));
            done += 1;
        }
        let s = ScreenContextManager {
            framebuffer,
            color: Pixel { r: 0, g: 0, b: 0 },
            width,
            height,
        };
        assert(s@.pixels =~= Surface::blank(width as nat, height as nat).pixels);
        Some(s)
    }

    /// The frame in the packed form that a streaming RGB texture or an RGB8
    /// image encoder reads: three bytes per pixel, rows from the top, no
    /// padding. Nothing is copied.
    pub fn as_bytes(&self) -> (bytes: &[u8])
        ensures
            bytes@ == self@.bytes(),
            bytes@.len() == self@.pitch() * self@.height,
    {
        proof {
            use_type_invariant(self);
        }
        let bytes = cast_cells(self.framebuffer.as_slice());
        assert(bytes@ =~= self@.bytes());
        assert(3 * (self.width * self.height) == (3 * self.width) * self.height) by (nonlinear_arith);
        bytes
    }

    /// The number of bytes from the start of one row of the packed frame to
    /// the start of the next.
    pub fn pitch(&self) -> (pitch: usize)
        ensures
            pitch == self@.pitch(),
    {
        proof {
            use_type_invariant(self);
        }
        3 * (self.width as usize)
    }

    /// The width in pixels, fixed when the surface was made.
    pub fn get_width(&self) -> (width: u32)
        ensures
            width == self@.width,
            self@.wf(),
            frame_fits(self@.width, self@.height),
    {
        proof {
            use_type_invariant(self);
        }
        self.width
    }

    /// The height in pixels, fixed when the surface was made.
    pub fn get_height(&self) -> (height: u32)
        ensures
            height == self@.height,
            self@.wf(),
            frame_fits(self@.width, self@.height),
    {
        proof {
            use_type_invariant(self);
        }
        self.height
    }

    /// The current draw colour.
    pub fn color(&self) -> (color: Pixel)
        ensures
            color == self@.color,
    {
        self.color
    }

    /// The pixel at `(x, y)`, or `None` for a position outside the surface.
    pub fn pixel(&self, x: u32, y: u32) -> (found: Option<Pixel>)
        ensures
            found == if self@.contains(x as int, y as int) {
                Some(self@.pixel(x as int, y as int))
            } else {
                None
            },
    {
        proof {
            use_type_invariant(self);
        }
        if x < self.width && y < self.height {
            proof {
                lemma_offset_in_range(x as int, y as int, self.width as int, self.height as int);
            }
            let at: usize = (y as usize) * (self.width as usize) + (x as usize);
            Some(read_cell(&self.framebuffer[at]))
        } else {
            None
        }
    }

    /// Sets the colour that `plot_pixel` writes. Each argument is an intensity
    /// level on the channel scale; levels outside 0..=255 are clamped.
    pub fn set_color(&mut self, r: i64, g: i64, b: i64)
        ensures
            final(self)@ == old(self)@.set_color(r as int, g as int, b as int),
            final(self)@.wf(),
    {
        proof {
            use_type_invariant(&*self);
        }
        self.color = Pixel::from_levels(r, g, b);
    }

    /// Writes the draw colour at `(x, y)`. A position outside the surface is
    /// refused and nothing changes.
    pub fn plot_pixel(&mut self, x: u32, y: u32) -> (res: Result<(), IndexError>)
        ensures
            final(self)@ == old(self)@.plot(x as int, y as int),
            final(self)@.wf(),
            res is Ok <==> old(self)@.contains(x as int, y as int),
            res matches Err(e) ==> e == (IndexError {
                x,
                y,
                width: old(self)@.width as u32,
                height: old(self)@.height as u32,
            }),
    {
        proof {
            use_type_invariant(&*self);
        }
        if x < self.width && y < self.height {
            proof {
                lemma_offset_in_range(x as int, y as int, self.width as int, self.height as int);
            }
            let at: usize = (y as usize) * (self.width as usize) + (x as usize);
            self.framebuffer[at] = cell_of(self.color);
            assert(self@.pixels =~= old(self)@.plot(x as int, y as int).pixels);
            Ok(())
        } else {
            Err(IndexError { x, y, width: self.width, height: self.height })
        }
    }

    /// Clears the whole surface to the grey of intensity level `shadow`,
    /// clamped to 0..=255. The draw colour stays as it is.
    pub fn clear(&mut self, shadow: i64)
        ensures
            final(self)@ == old(self)@.clear(shadow as int),
            final(self)@.wf(),
    {
        self.fill(Pixel::from_levels(shadow, shadow, shadow));
    }

    /// Clears the whole surface to the colour of the three intensity levels,
    /// each clamped to 0..=255. The draw colour stays as it is.
    pub fn clear_with_rgb(&mut self, r: i64, g: i64, b: i64)
        ensures
            final(self)@ == old(self)@.clear_with_rgb(r as int, g as int, b as int),
            final(self)@.wf(),
    {
        self.fill(Pixel::from_levels(r, g, b));
    }

    /// Overwrites every pixel with `p`.
    fn fill(&mut self, p: Pixel)
        ensures
            final(self)@ == old(self)@.fill(p),
            final(self)@.wf(),
    {
        proof {
            use_type_invariant(&*self);
        }
        let cell = cell_of(p);
        let count = self.framebuffer.len();
        let mut done: usize = 0;
        while done < count
            invariant
                done <= count,
                count == self.framebuffer@.len(),
                count == old(self).framebuffer@.len(),
                self.width == old(self).width,
                self.height == old(self).height,
                self.color == old(self).color,
                self.inv(),
                pixel_of(cell) == p,
                forall|i: int| 0 <= i < done ==> pixel_of(#[trigger] self.framebuffer@[i]) == p,
            decreases count - done,
        {
            self.framebuffer[done] = cell;
            done += 1;
        }
        assert(self@.pixels =~= old(self)@.fill(p).pixels);
    }
}

} // verus!
