//! Laws of the surface model. Every operation of `ScreenContextManager` is
//! specified as a function on `Surface`, so what is proved here of the model
//! holds of the running code.

use vstd::prelude::*;
use crate::model::{lemma_offset_in_range, Surface};
use crate::pixel::Pixel;

verus! {

/// Two positions of a surface share an offset only if they are the same
/// position.
pub proof fn lemma_offset_injective(s: Surface, x: int, y: int, u: int, v: int)
    requires
        s.contains(x, y),
        s.contains(u, v),
        s.offset(x, y) == s.offset(u, v),
    ensures
        x == u,
        y == v,
{
    let w = s.width as int;
    assert(y == v) by (nonlinear_arith)
        requires
            0 <= x < w,
            0 <= u < w,
            y * w + x == v * w + u,
    {
        assert((y - v) * w == u - x);
        if y > v {
            assert((y - v) * w >= w);
        }
        if y < v {
            assert((v - y) * w >= w);
        }
    }
}

/// Every position of a well-formed surface has its offset inside the pixel
/// sequence.
pub proof fn lemma_offset_in_bounds(s: Surface, x: int, y: int)
    requires
        s.wf(),
        s.contains(x, y),
    ensures
        0 <= s.offset(x, y) < s.pixels.len(),
{
    lemma_offset_in_range(x, y, s.width as int, s.height as int);
}

/// Whether `after` is well-formed with the dimensions of `before`.
pub open spec fn same_shape(before: Surface, after: Surface) -> bool {
    &&& after.wf()
    &&& after.width == before.width
    &&& after.height == before.height
    &&& after.pixels.len() == before.pixels.len()
}

/// No operation changes the dimensions of a surface or the number of its
/// pixels, so a well-formed surface stays well-formed.
pub proof fn lemma_dimensions_are_fixed(s: Surface, x: int, y: int, r: int, g: int, b: int)
    requires
        s.wf(),
    ensures
        same_shape(s, s.set_color(r, g, b)),
        same_shape(s, s.plot(x, y)),
        same_shape(s, s.clear(r)),
        same_shape(s, s.clear_with_rgb(r, g, b)),
{
    if s.contains(x, y) {
        lemma_offset_in_bounds(s, x, y);
    }
}

/// A blank surface is well-formed, draws in black, and is black at every
/// position.
pub proof fn lemma_blank_is_black(width: nat, height: nat, x: int, y: int)
    requires
        Surface::blank(width, height).contains(x, y),
    ensures
        Surface::blank(width, height).wf(),
        Surface::blank(width, height).color == Pixel::black(),
        Surface::blank(width, height).pixel(x, y) == Pixel::black(),
{
    lemma_offset_in_bounds(Surface::blank(width, height), x, y);
}

/// After the draw colour is set from three levels and a position inside the
/// surface is plotted, that position holds the three clamped levels.
pub proof fn lemma_plot_reads_back(s: Surface, r: int, g: int, b: int, x: int, y: int)
    requires
        s.wf(),
        s.contains(x, y),
    ensures
        s.set_color(r, g, b).plot(x, y).pixel(x, y) == Pixel::of_levels(r, g, b),
{
    lemma_offset_in_bounds(s, x, y);
}

/// Plotting a position inside the surface leaves every other position, and the
/// draw colour, as they were.
pub proof fn lemma_plot_touches_one_pixel(s: Surface, x: int, y: int, u: int, v: int)
    requires
        s.wf(),
        s.contains(x, y),
        s.contains(u, v),
        u != x || v != y,
    ensures
        s.plot(x, y).pixel(u, v) == s.pixel(u, v),
        s.plot(x, y).color == s.color,
{
    lemma_offset_in_bounds(s, x, y);
    lemma_offset_in_bounds(s, u, v);
    if s.offset(x, y) == s.offset(u, v) {
        lemma_offset_injective(s, x, y, u, v);
    }
}

/// On a surface with at least one pixel the far corner is a position, so
/// plotting it puts the draw colour there; plotting any position outside the
/// surface changes nothing.
pub proof fn lemma_plot_at_the_boundary(s: Surface, x: int, y: int)
    requires
        s.wf(),
    ensures
        s.width > 0 && s.height > 0 ==> {
            &&& s.contains(s.width - 1, s.height - 1)
            &&& s.plot(s.width - 1, s.height - 1).pixel(s.width - 1, s.height - 1) == s.color
        },
        !s.contains(x, y) ==> s.plot(x, y) == s,
{
    if s.width > 0 && s.height > 0 {
        lemma_offset_in_bounds(s, s.width - 1, s.height - 1);
    }
}

/// After `clear` every pixel is the grey of the level, whatever the surface
/// held before: pixel by pixel along the sequence, and position by position.
pub proof fn lemma_clear_is_uniform(s: Surface, level: int, x: int, y: int)
    requires
        s.wf(),
        s.contains(x, y),
    ensures
        forall|i: int|
            0 <= i < s.pixels.len() ==> #[trigger] s.clear(level).pixels[i] == Pixel::grey(level),
        s.clear(level).pixel(x, y) == Pixel::grey(level),
{
    lemma_offset_in_bounds(s, x, y);
}

/// Clearing twice with the same level is the same as clearing once.
pub proof fn lemma_clear_is_idempotent(s: Surface, level: int)
    ensures
        s.clear(level).clear(level) == s.clear(level),
{
    assert(s.clear(level).clear(level).pixels =~= s.clear(level).pixels);
}

/// Of two clears in a row only the second shows: the result is the surface
/// cleared with the second colour alone.
pub proof fn lemma_last_clear_wins(s: Surface, r: int, g: int, b: int, r2: int, g2: int, b2: int)
    ensures
        s.clear_with_rgb(r, g, b).clear_with_rgb(r2, g2, b2) == s.clear_with_rgb(r2, g2, b2),
{
    let twice = s.clear_with_rgb(r, g, b).clear_with_rgb(r2, g2, b2);
    assert(twice.pixels =~= s.clear_with_rgb(r2, g2, b2).pixels);
}

/// The packed frame has `height` rows of `pitch` bytes, and channel `c` of the
/// pixel at `(x, y)` is byte `3 * x + c` of row `y`.
pub proof fn lemma_bytes_layout(s: Surface, x: int, y: int, c: int)
    requires
        s.wf(),
        s.contains(x, y),
        0 <= c < 3,
    ensures
        s.bytes().len() == s.pitch() * s.height,
        0 <= y * s.pitch() + 3 * x + c < s.bytes().len(),
        s.bytes()[y * s.pitch() + 3 * x + c] == s.pixel(x, y).channel(c),
{
    lemma_offset_in_bounds(s, x, y);
    let w = s.width as int;
    let h = s.height as int;
    let k = y * (3 * w) + 3 * x + c;
    assert(3 * (w * h) == (3 * w) * h) by (nonlinear_arith);
    assert(k == 3 * (y * w + x) + c) by (nonlinear_arith)
        requires
            k == y * (3 * w) + 3 * x + c,
    ;
    assert(k / 3 == y * w + x && k % 3 == c);
}

} // verus!
