//! The solid-colour panels along the top and bottom edges of the screen.

use vstd::prelude::*;
use crate::pixel::{fill_pixel_range, filled, pixel_row, xrgb_byte};

verus! {

/// The framebuffer `old` of a `width` x `height` screen after the top `top`
/// rows have been painted with `top_color` and then the bottom `bottom` rows
/// with `bottom_color` (so the bottom panel wins where the two overlap). The
/// top panel may reach below the last row of the screen; every other byte
/// keeps its value.
pub open spec fn panels_drawn(
    old: Seq<u8>,
    width: int,
    height: int,
    top: int,
    bottom: int,
    top_color: (u8, u8, u8),
    bottom_color: (u8, u8, u8),
) -> Seq<u8> {
    Seq::new(
        old.len(),
        |k: int|
            if width > 0 && height - bottom <= pixel_row(k, width) < height {
                xrgb_byte(bottom_color, k % 4)
            } else if width > 0 && pixel_row(k, width) < top {
                xrgb_byte(top_color, k % 4)
            } else {
                old[k]
            },
    )
}

/// Rows `first .. last` of a screen `width` pixels wide are the pixels
/// `first * width .. last * width`.
proof fn lemma_rows_are_pixels(p: int, width: int, first: int, last: int)
    requires
        p >= 0,
        width > 0,
        0 <= first,
    ensures
        (first * width <= p < last * width) <==> (first <= p / width < last),
{
    vstd::arithmetic::div_mod::lemma_fundamental_div_mod(p, width);
    let q: int = p / width;
    let m: int = p % width;
    if first * width <= p {
        assert(first <= q) by (nonlinear_arith)
            requires p == width * q + m, 0 <= m < width, first * width <= p, width > 0;
    }
    if p < last * width {
        assert(q < last) by (nonlinear_arith)
            requires p == width * q + m, 0 <= m < width, p < last * width, width > 0;
    }
    if first <= q {
        assert(first * width <= p) by (nonlinear_arith)
            requires p == width * q + m, 0 <= m, first <= q, width > 0;
    }
    if q < last {
        assert(p < last * width) by (nonlinear_arith)
            requires p == width * q + m, m < width, q < last, width > 0;
    }
}

/// Paints the top `top_panel_height` rows of the framebuffer with `top_color`
/// and then the bottom `bottom_panel_height` rows of the `width` x `height`
/// screen with `bottom_color`, both given as (red, green, blue) and written in
/// XRGB8888 order.
pub fn draw_panels_to_framebuffer(
    framebuffer: &mut [u8],
    width: usize,
    height: usize,
    top_panel_height: usize,
    bottom_panel_height: usize,
    top_color: (u8, u8, u8),
    bottom_color: (u8, u8, u8),
)
    requires
        bottom_panel_height <= height,
        top_panel_height * width * 4 <= old(framebuffer)@.len(),
        bottom_panel_height == 0 || height * width * 4 <= old(framebuffer)@.len(),
    ensures
        final(framebuffer)@ == panels_drawn(
            old(framebuffer)@,
            width as int,
            height as int,
            top_panel_height as int,
            bottom_panel_height as int,
            top_color,
            bottom_color,
        ),
{
    let ghost start = framebuffer@;
    let _len: usize = framebuffer.len();
    let top_end: usize = top_panel_height * width;
    fill_pixel_range(framebuffer, 0, top_end, top_color);
    let ghost after_top = framebuffer@;
    if bottom_panel_height > 0 {
        let first_row: usize = height - bottom_panel_height;
        proof {
            vstd::arithmetic::mul::lemma_mul_inequality(first_row as int, height as int, width as int);
        }
        fill_pixel_range(framebuffer, first_row * width, height * width, bottom_color);
    }
    proof {
        let goal = panels_drawn(
            start,
            width as int,
            height as int,
            top_panel_height as int,
            bottom_panel_height as int,
            top_color,
            bottom_color,
        );
        assert forall|k: int| 0 <= k < framebuffer@.len() implies framebuffer@[k] == goal[k] by {
            if width > 0 {
                lemma_rows_are_pixels(k / 4, width as int, 0, top_panel_height as int);
                lemma_rows_are_pixels(
                    k / 4,
                    width as int,
                    (height - bottom_panel_height) as int,
                    height as int,
                );
            }
        }
        assert(framebuffer@ =~= goal);
    }
}

/// What the panels look like, byte by byte: a pixel in one of the bottom
/// `bottom` rows of the screen holds the bottom colour (blue, green, red, then
/// zero), even where the top panel reaches it; any other pixel in one of the
/// top `top` rows holds the top colour; every other byte is unchanged.
pub proof fn lemma_panel_pixels(
    old: Seq<u8>,
    width: int,
    height: int,
    top: int,
    bottom: int,
    top_color: (u8, u8, u8),
    bottom_color: (u8, u8, u8),
    k: int,
)
    requires
        width > 0,
        0 <= k < old.len(),
    ensures
        ({
            let drawn = panels_drawn(old, width, height, top, bottom, top_color, bottom_color);
            let row = (k / 4) / width;
            let in_bottom = height - bottom <= row < height;
            let in_top = row < top;
            &&& drawn.len() == old.len()
            &&& in_bottom ==> drawn[k] == (if k % 4 == 0 {
                bottom_color.2
            } else if k % 4 == 1 {
                bottom_color.1
            } else if k % 4 == 2 {
                bottom_color.0
            } else {
                0
            })
            &&& !in_bottom && in_top ==> drawn[k] == (if k % 4 == 0 {
                top_color.2
            } else if k % 4 == 1 {
                top_color.1
            } else if k % 4 == 2 {
                top_color.0
            } else {
                0
            })
            &&& !in_bottom && !in_top ==> drawn[k] == old[k]
        }),
{
}

} // verus!
