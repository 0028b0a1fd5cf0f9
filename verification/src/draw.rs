//! The overlay outline renderer.
//!
//! The overlay surface is a flat RGBA byte buffer, row-major, four bytes per
//! pixel.  A redraw clears the whole buffer to transparent black and then
//! draws a one-pixel-wide opaque red outline along the four edges of the
//! selection rectangle.  Every pixel write goes through a single bounds
//! check on the flat byte index, so a rectangle that reaches past the
//! buffer is drawn as far as the buffer goes and silently clipped beyond.

use vstd::prelude::*;

use crate::geometry::SelectionRectangle;

verus! {

/// The byte an outline pixel carries in channel `c` of its RGBA quadruple:
/// opaque red, so 255 in the red and alpha channels and 0 elsewhere.
pub open spec fn outline_channel(c: int) -> u8 {
    if c == 0 || c == 3 {
        255u8
    } else {
        0u8
    }
}

/// The pixel number the flat buffer assigns to column `x` of row `y` when
/// rows are `width` pixels wide.
pub open spec fn row_pixel(width: int, y: int, x: int) -> int {
    y * width + x
}

/// The flat byte index of the first channel of pixel `(x, y)`.
pub open spec fn pixel_index(width: int, x: int, y: int) -> int {
    4 * row_pixel(width, y, x)
}

/// The buffer after one outline-pixel write at `(x, y)`: the four bytes of
/// that pixel become the outline colour when they all lie inside the
/// buffer, and nothing changes otherwise.
pub open spec fn with_outline_pixel(s: Seq<u8>, width: int, x: int, y: int) -> Seq<u8> {
    let idx = pixel_index(width, x, y);
    if 0 <= idx && idx + 4 <= s.len() {
        s.update(idx, 255u8).update(idx + 1, 0u8).update(idx + 2, 0u8).update(idx + 3, 255u8)
    } else {
        s
    }
}

/// Pixel `pix` is the point of column `x` on the top or bottom edge of `r`.
pub open spec fn is_horizontal_edge_pixel(r: SelectionRectangle, width: int, x: int, pix: int) -> bool {
    ||| pix == row_pixel(width, r.y as int, x)
    ||| pix == row_pixel(width, r.y as int + r.height as int, x)
}

/// Pixel `pix` is the point of row `y` on the left or right edge of `r`.
pub open spec fn is_vertical_edge_pixel(r: SelectionRectangle, width: int, y: int, pix: int) -> bool {
    ||| pix == row_pixel(width, y, r.x as int)
    ||| pix == row_pixel(width, y, r.x as int + r.width as int)
}

/// Pixel `pix` is written by the passes over the top and bottom edges once
/// their column counter has passed every column below `x_hi`.
pub open spec fn on_horizontal_edges(r: SelectionRectangle, width: int, x_hi: int, pix: int) -> bool {
    exists|x: int| r.x as int <= x < x_hi && #[trigger] is_horizontal_edge_pixel(r, width, x, pix)
}

/// Pixel `pix` is written by the passes over the left and right edges once
/// their row counter has passed every row below `y_hi`.
pub open spec fn on_vertical_edges(r: SelectionRectangle, width: int, y_hi: int, pix: int) -> bool {
    exists|y: int| r.y as int <= y < y_hi && #[trigger] is_vertical_edge_pixel(r, width, y, pix)
}

/// Pixel `pix` lies on the one-pixel outline of `r`, both edge pixels
/// included.
pub open spec fn on_outline(r: SelectionRectangle, width: int, pix: int) -> bool {
    ||| on_horizontal_edges(r, width, r.x as int + r.width as int + 1, pix)
    ||| on_vertical_edges(r, width, r.y as int + r.height as int + 1, pix)
}

/// Byte `i` of a buffer of length `len` that has been cleared and then
/// outlined as far as the two passes have come: the outline colour wherever
/// the byte belongs to a fully in-bounds pixel that a pass has written, and
/// transparent black everywhere else.
pub open spec fn painted_byte(
    len: int,
    width: int,
    r: SelectionRectangle,
    x_hi: int,
    y_hi: int,
    i: int,
) -> u8 {
    if 4 * (i / 4) + 4 <= len && (on_horizontal_edges(r, width, x_hi, i / 4)
        || on_vertical_edges(r, width, y_hi, i / 4)) {
        outline_channel(i % 4)
    } else {
        0u8
    }
}

/// The whole buffer in that state.
pub open spec fn painted(len: int, width: int, r: SelectionRectangle, x_hi: int, y_hi: int) -> Seq<
    u8,
> {
    Seq::new(len as nat, |i: int| painted_byte(len, width, r, x_hi, y_hi, i))
}

/// The fully rendered overlay frame: cleared, then the complete outline.
pub open spec fn rendered(len: int, width: int, r: SelectionRectangle) -> Seq<u8> {
    painted(len, width, r, r.x as int + r.width as int + 1, r.y as int + r.height as int + 1)
}

/// What each byte of a rendered frame holds: the outline colour in every
/// byte of a fully in-bounds outline pixel, and transparent black in every
/// other byte, whatever the buffer held before.
pub proof fn lemma_rendered_byte(len: int, width: int, r: SelectionRectangle, i: int)
    requires
        0 <= i < len,
    ensures
        rendered(len, width, r)[i] == if 4 * (i / 4) + 4 <= len && on_outline(r, width, i / 4) {
            outline_channel(i % 4)
        } else {
            0u8
        },
{
}

/// Writes the outline colour into the single pixel `(x, y)` of the flat
/// RGBA buffer, skipping the write when the pixel's four bytes do not all
/// lie inside the buffer.
pub fn draw_line(frame: &mut Vec<u8>, width: u32, x: u32, y: u32)
    ensures
        final(frame)@ == with_outline_pixel(old(frame)@, width as int, x as int, y as int),
        final(frame)@.len() == old(frame)@.len(),
{
    proof {
        assert((y as int) * (width as int) >= 0 && (y as int) * (width as int) <= 0xffff_ffff
            * 0xffff_ffff) by (nonlinear_arith)
            requires
                0 <= y as int <= 0xffff_ffff,
                0 <= width as int <= 0xffff_ffff,
        ;
    }
    let pix: u64 = (y as u64) * (width as u64) + (x as u64);
    let len: usize = frame.len();
    if pix < (len as u64) / 4 {
        proof {
            assert(4 * pix + 4 <= len);
        }
        let idx: usize = (pix as usize) * 4;
        frame.set(idx, 255);
        frame.set(idx + 1, 0);
        frame.set(idx + 2, 0);
        frame.set(idx + 3, 255);
        proof {
            assert(frame@ =~= with_outline_pixel(old(frame)@, width as int, x as int, y as int));
        }
    } else {
        proof {
            assert(4 * pix + 4 > len);
            assert(frame@ =~= with_outline_pixel(old(frame)@, width as int, x as int, y as int));
        }
    }
}

/// Before a pass has moved at all, it has covered no pixel.
proof fn lemma_cover_start_empty(r: SelectionRectangle, width: int)
    ensures
        forall|pix: int| !on_horizontal_edges(r, width, r.x as int, pix),
        forall|pix: int| !on_vertical_edges(r, width, r.y as int, pix),
{
    assert forall|pix: int| !on_horizontal_edges(r, width, r.x as int, pix) by {
        if on_horizontal_edges(r, width, r.x as int, pix) {
            let xx = choose|xx: int|
                r.x as int <= xx < r.x as int && #[trigger] is_horizontal_edge_pixel(
                    r,
                    width,
                    xx,
                    pix,
                );
            assert(false);
        }
    }
    assert forall|pix: int| !on_vertical_edges(r, width, r.y as int, pix) by {
        if on_vertical_edges(r, width, r.y as int, pix) {
            let yy = choose|yy: int|
                r.y as int <= yy < r.y as int && #[trigger] is_vertical_edge_pixel(r, width, yy, pix);
            assert(false);
        }
    }
}

/// Extending the horizontal passes by one column covers exactly the two
/// pixels of that column on the top and bottom edges, beyond what was
/// already covered.
proof fn lemma_horizontal_cover_unfold(r: SelectionRectangle, width: int, x: int, pix: int)
    requires
        r.x as int <= x,
    ensures
        on_horizontal_edges(r, width, x + 1, pix) <==> (on_horizontal_edges(r, width, x, pix)
            || is_horizontal_edge_pixel(r, width, x, pix)),
{
    if on_horizontal_edges(r, width, x + 1, pix) {
        let xx = choose|xx: int|
            r.x as int <= xx < x + 1 && #[trigger] is_horizontal_edge_pixel(r, width, xx, pix);
        if xx < x {
            assert(on_horizontal_edges(r, width, x, pix));
        }
    }
    if on_horizontal_edges(r, width, x, pix) {
        let xx = choose|xx: int|
            r.x as int <= xx < x && #[trigger] is_horizontal_edge_pixel(r, width, xx, pix);
        assert(r.x as int <= xx < x + 1);
        assert(on_horizontal_edges(r, width, x + 1, pix));
    }
    if is_horizontal_edge_pixel(r, width, x, pix) {
        assert(r.x as int <= x < x + 1);
        assert(on_horizontal_edges(r, width, x + 1, pix));
    }
}

/// The same, for one more row of the vertical passes.
proof fn lemma_vertical_cover_unfold(r: SelectionRectangle, width: int, y: int, pix: int)
    requires
        r.y as int <= y,
    ensures
        on_vertical_edges(r, width, y + 1, pix) <==> (on_vertical_edges(r, width, y, pix)
            || is_vertical_edge_pixel(r, width, y, pix)),
{
    if on_vertical_edges(r, width, y + 1, pix) {
        let yy = choose|yy: int|
            r.y as int <= yy < y + 1 && #[trigger] is_vertical_edge_pixel(r, width, yy, pix);
        if yy < y {
            assert(on_vertical_edges(r, width, y, pix));
        }
    }
    if on_vertical_edges(r, width, y, pix) {
        let yy = choose|yy: int|
            r.y as int <= yy < y && #[trigger] is_vertical_edge_pixel(r, width, yy, pix);
        assert(r.y as int <= yy < y + 1);
        assert(on_vertical_edges(r, width, y + 1, pix));
    }
    if is_vertical_edge_pixel(r, width, y, pix) {
        assert(r.y as int <= y < y + 1);
        assert(on_vertical_edges(r, width, y + 1, pix));
    }
}

/// Writing the two pixels of column `x` on the top and bottom edges takes a
/// buffer painted up to column `x` to one painted up to column `x + 1`.
proof fn lemma_paint_horizontal_step(len: int, width: int, r: SelectionRectangle, x: int)
    requires
        0 <= len,
        0 <= width,
        r.x as int <= x,
    ensures
        with_outline_pixel(
            with_outline_pixel(painted(len, width, r, x, r.y as int), width, x, r.y as int),
            width,
            x,
            r.y as int + r.height as int,
        ) == painted(len, width, r, x + 1, r.y as int),
{
    let y0 = r.y as int;
    let y1 = r.y as int + r.height as int;
    let s0 = painted(len, width, r, x, y0);
    let s1 = with_outline_pixel(s0, width, x, y0);
    let s2 = with_outline_pixel(s1, width, x, y1);
    let tgt = painted(len, width, r, x + 1, y0);
    let p0 = row_pixel(width, y0, x);
    let p1 = row_pixel(width, y1, x);
    assert(p0 >= 0 && p1 >= 0) by (nonlinear_arith)
        requires
            width >= 0,
            x >= 0,
            y0 >= 0,
            y1 >= y0,
            p0 == y0 * width + x,
            p1 == y1 * width + x,
    ;
    assert forall|i: int| 0 <= i < len implies s2[i] == tgt[i] by {
        lemma_horizontal_cover_unfold(r, width, x, i / 4);
        assert(4 * (i / 4) <= i < 4 * (i / 4) + 4);
    }
    assert(s2 =~= tgt);
}

/// Writing the two pixels of row `y` on the left and right edges takes a
/// buffer whose horizontal edges are complete and whose vertical passes
/// reach row `y` to one where they reach row `y + 1`.
proof fn lemma_paint_vertical_step(len: int, width: int, r: SelectionRectangle, y: int)
    requires
        0 <= len,
        0 <= width,
        r.y as int <= y,
    ensures
        with_outline_pixel(
            with_outline_pixel(
                painted(len, width, r, r.x as int + r.width as int + 1, y),
                width,
                r.x as int,
                y,
            ),
            width,
            r.x as int + r.width as int,
            y,
        ) == painted(len, width, r, r.x as int + r.width as int + 1, y + 1),
{
    let x_hi = r.x as int + r.width as int + 1;
    let x0 = r.x as int;
    let x1 = r.x as int + r.width as int;
    let s0 = painted(len, width, r, x_hi, y);
    let s1 = with_outline_pixel(s0, width, x0, y);
    let s2 = with_outline_pixel(s1, width, x1, y);
    let tgt = painted(len, width, r, x_hi, y + 1);
    let p0 = row_pixel(width, y, x0);
    let p1 = row_pixel(width, y, x1);
    assert(p0 >= 0 && p1 >= 0) by (nonlinear_arith)
        requires
            width >= 0,
            y >= 0,
            0 <= x0 <= x1,
            p0 == y * width + x0,
            p1 == y * width + x1,
    ;
    assert forall|i: int| 0 <= i < len implies s2[i] == tgt[i] by {
        lemma_vertical_cover_unfold(r, width, y, i / 4);
        assert(4 * (i / 4) <= i < 4 * (i / 4) + 4);
    }
    assert(s2 =~= tgt);
}

/// Clears the whole buffer to transparent black, then draws the one-pixel
/// opaque red outline of `rect`, iterating the horizontal extent for the
/// top and bottom edges and the vertical extent for the left and right
/// edges.  Every pixel is bounds-checked against the buffer length, so the
/// buffer never grows or shrinks and a rectangle reaching past it is
/// clipped.  The result depends only on the buffer's length, never on its
/// previous contents.
pub fn draw_rect(frame: &mut Vec<u8>, width: u32, rect: &SelectionRectangle)
    requires
        rect.wf(),
    ensures
        final(frame)@ == rendered(old(frame)@.len() as int, width as int, *rect),
        final(frame)@.len() == old(frame)@.len(),
{
    let ghost len0: int = old(frame)@.len() as int;
    let mut i: usize = 0;
    let n: usize = frame.len();
    while i < n
        invariant
            i <= n,
            n == frame@.len(),
            frame@.len() == len0,
            forall|j: int| 0 <= j < i ==> frame@[j] == 0u8,
        decreases n - i,
    {
        frame.set(i, 0);
        i = i + 1;
    }
    proof {
        lemma_cover_start_empty(*rect, width as int);
        assert(frame@ =~= painted(len0, width as int, *rect, rect.x as int, rect.y as int));
    }
    let y_top: u32 = rect.y;
    let y_bottom: u32 = rect.y + rect.height;
    let x_last: u64 = rect.x as u64 + rect.width as u64;
    let mut x: u64 = rect.x as u64;
    while x <= x_last
        invariant
            rect.wf(),
            rect.x as u64 <= x <= x_last + 1,
            x_last == rect.x as int + rect.width as int,
            y_top == rect.y,
            y_bottom == rect.y as int + rect.height as int,
            frame@ == painted(len0, width as int, *rect, x as int, rect.y as int),
            frame@.len() == len0,
        decreases x_last + 1 - x,
    {
        draw_line(frame, width, x as u32, y_top);
        draw_line(frame, width, x as u32, y_bottom);
        proof {
            lemma_paint_horizontal_step(len0, width as int, *rect, x as int);
        }
        x = x + 1;
    }
    let x_left: u32 = rect.x;
    let x_right: u32 = rect.x + rect.width;
    let y_last: u64 = rect.y as u64 + rect.height as u64;
    let mut y: u64 = rect.y as u64;
    while y <= y_last
        invariant
            rect.wf(),
            rect.y as u64 <= y <= y_last + 1,
            y_last == rect.y as int + rect.height as int,
            x_left == rect.x,
            x_right == rect.x as int + rect.width as int,
            frame@ == painted(
                len0,
                width as int,
                *rect,
                rect.x as int + rect.width as int + 1,
                y as int,
            ),
            frame@.len() == len0,
        decreases y_last + 1 - y,
    {
        draw_line(frame, width, x_left, y as u32);
        draw_line(frame, width, x_right, y as u32);
        proof {
            lemma_paint_vertical_step(len0, width as int, *rect, y as int);
        }
        y = y + 1;
    }
}

/// Rendering is not incremental: a redraw clears the buffer before drawing,
/// so the frame it leaves depends only on the buffer's length, and drawing
/// the same rectangle a second time reproduces exactly the frame the first
/// drawing left.
pub proof fn lemma_draw_rect_idempotent(len: int, width: int, r: SelectionRectangle)
    requires
        0 <= len,
    ensures
        rendered(rendered(len, width, r).len() as int, width, r) == rendered(len, width, r),
{
    assert(rendered(len, width, r).len() == len as nat);
}

} // verus!
