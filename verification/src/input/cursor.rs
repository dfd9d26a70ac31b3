//! Drawing and erasing the mouse cursor.

use vstd::prelude::*;
use crate::pixel::{
    clip_len, copy_rect, in_clipped_rect, lemma_row_run, pixel_row, rect_fits, rect_fits_in,
    PixelConversion,
};
use crate::raster::{decode_resized_rgba8, decoded_resized_rgba8, RgbaImage};

verus! {

/// Width and height, in pixels, of the square the cursor occupies.
pub const CURSOR_SIZE: usize = 22;

/// The framebuffer `fb` after the cursor square at (`x`, `y`) has been copied
/// back from `cache`, a saved copy of the background with the same layout:
/// bytes of on-screen pixels of the square come from `cache`, all others keep
/// their value.
pub open spec fn restored(fb: Seq<u8>, cache: Seq<u8>, width: int, height: int, x: int, y: int) -> Seq<u8> {
    Seq::new(
        fb.len(),
        |k: int|
            if in_clipped_rect(k, width, height, x, y, CURSOR_SIZE as int, CURSOR_SIZE as int) {
                cache[k]
            } else {
                fb[k]
            },
    )
}

/// The cursor square at (`x`, `y`), clipped to the screen, lies inside a
/// buffer of `len` bytes.
pub open spec fn cursor_square_fits(len: int, width: int, height: int, x: int, y: int) -> bool {
    rect_fits(len, width, height, x, y, CURSOR_SIZE as int, CURSOR_SIZE as int)
}

/// Copies the on-screen part of the cursor square whose top-left corner is at
/// (`x`, `y`) from `cache` back into `fb`, erasing the cursor drawn there.
pub fn restore_cursor_area(
    fb: &mut [u8],
    cache: &[u8],
    fb_width: usize,
    fb_height: usize,
    x: usize,
    y: usize,
)
    requires
        x + (CURSOR_SIZE - 1) <= usize::MAX,
        y + (CURSOR_SIZE - 1) <= usize::MAX,
        cursor_square_fits(old(fb)@.len() as int, fb_width as int, fb_height as int, x as int, y as int),
        cursor_square_fits(cache@.len() as int, fb_width as int, fb_height as int, x as int, y as int),
    ensures
        final(fb)@ == restored(old(fb)@, cache@, fb_width as int, fb_height as int, x as int, y as int),
{
    let ghost start = fb@;
    copy_rect(
        fb,
        cache,
        fb_width,
        fb_height,
        x,
        y,
        CURSOR_SIZE,
        CURSOR_SIZE,
        fb_width,
        x,
        y,
        PixelConversion::Verbatim,
    );
    proof {
        let r = restored(start, cache@, fb_width as int, fb_height as int, x as int, y as int);
        assert forall|k: int| 0 <= k < fb@.len() implies fb@[k] == r[k] by {
            if in_clipped_rect(k, fb_width as int, fb_height as int, x as int, y as int, CURSOR_SIZE as int, CURSOR_SIZE as int) {
                let p: int = k / 4;
                let w: int = fb_width as int;
                vstd::arithmetic::div_mod::lemma_fundamental_div_mod(p, w);
                let row: int = crate::pixel::pixel_row(k, w);
                let col: int = crate::pixel::pixel_col(k, w);
                assert((y + row - y) * w + x + col - x == p) by (nonlinear_arith)
                    requires p == w * row + col;
                assert(p * 4 + k % 4 == k);
            }
        }
        assert(fb@ =~= r);
    }
}

/// Erasing restores the background: when `fb` differs from the saved
/// background `cache` only inside the on-screen part of the cursor square at
/// (`x`, `y`) (as it does after the cursor was drawn there), copying that
/// square back from `cache` gives `cache` again.
pub proof fn lemma_restore_recovers_background(
    fb: Seq<u8>,
    cache: Seq<u8>,
    width: int,
    height: int,
    x: int,
    y: int,
)
    requires
        fb.len() == cache.len(),
        forall|k: int|
            0 <= k < fb.len() && !in_clipped_rect(k, width, height, x, y, CURSOR_SIZE as int, CURSOR_SIZE as int)
                ==> fb[k] == cache[k],
    ensures
        restored(fb, cache, width, height, x, y) == cache,
{
    assert(restored(fb, cache, width, height, x, y) =~= cache);
}

/// Byte `k` of the framebuffer went from `old[k]` to `new[k]` by blending the
/// matching channel of the image pixel that `blend` was given: `blend` is
/// called with the old byte, the image's byte for that channel and the image
/// pixel's alpha byte, and `new[k]` is a result it may return for them. The
/// image pixel is the one at the byte's offset from the source pixel `from`
/// (pixel `dst` of the framebuffer shows pixel `from` of the image).
pub open spec fn byte_blended<F: Fn(u8, u8, u8) -> u8>(
    old: Seq<u8>,
    new: Seq<u8>,
    image: Seq<u8>,
    k: int,
    dst: int,
    from: int,
    blend: F,
) -> bool {
    let base = (from + k / 4 - dst) * 4;
    call_ensures(blend, (old[k], image[base + k % 4], image[base + 3]), new[k])
}

/// `new` is `old` with the colour bytes (not the fourth byte) of the `count`
/// pixels from pixel `dst` on blended with the image pixels from pixel `from`
/// on; every other byte is unchanged.
pub open spec fn span_blended<F: Fn(u8, u8, u8) -> u8>(
    old: Seq<u8>,
    new: Seq<u8>,
    image: Seq<u8>,
    dst: int,
    from: int,
    count: int,
    blend: F,
) -> bool {
    &&& new.len() == old.len()
    &&& forall|k: int|
        0 <= k < old.len() ==> if dst * 4 <= k < (dst + count) * 4 && k % 4 < 3 {
            byte_blended(old, new, image, k, dst, from, blend)
        } else {
            new[k] == old[k]
        }
}

/// `new` is `old` with the `w` x `h` rectangle at (`x`, `y`) of a `width` x
/// `height` screen blended with `image`, whose rows are `stride` pixels long:
/// the colour bytes of each on-screen pixel of the rectangle are blended with
/// the image pixel at the same place relative to the corner, and every other
/// byte is unchanged.
pub open spec fn rect_blended<F: Fn(u8, u8, u8) -> u8>(
    old: Seq<u8>,
    new: Seq<u8>,
    image: Seq<u8>,
    width: int,
    height: int,
    x: int,
    y: int,
    w: int,
    h: int,
    stride: int,
    blend: F,
) -> bool {
    &&& new.len() == old.len()
    &&& forall|k: int|
        0 <= k < old.len() ==> if in_clipped_rect(k, width, height, x, y, w, h) && k % 4 < 3 {
            byte_blended(
                old,
                new,
                image,
                k,
                pixel_row(k, width) * width + x,
                (pixel_row(k, width) - y) * stride,
                blend,
            )
        } else {
            new[k] == old[k]
        }
}

/// `new` is `old` with the `img_width` x `img_height` image `image` blended in
/// with its top-left corner at (`x`, `y`) on a `width` x `height` screen: the
/// colour bytes of each on-screen pixel covered by the image are blended with
/// the matching image pixel, and every other byte (including the fourth byte
/// of each pixel) is unchanged.
pub open spec fn cursor_blended<F: Fn(u8, u8, u8) -> u8>(
    old: Seq<u8>,
    new: Seq<u8>,
    image: Seq<u8>,
    width: int,
    height: int,
    x: int,
    y: int,
    img_width: int,
    img_height: int,
    blend: F,
) -> bool {
    rect_blended(old, new, image, width, height, x, y, img_width, img_height, img_width, blend)
}

/// Blends `count` image pixels, from pixel `from` on, into the framebuffer
/// pixels from pixel `dst` on, one pixel and one colour byte at a time.
fn blend_span<F: Fn(u8, u8, u8) -> u8>(
    fb: &mut [u8],
    image: &[u8],
    dst: usize,
    from: usize,
    count: usize,
    blend: &F,
)
    requires
        (dst + count) * 4 <= old(fb)@.len(),
        (from + count) * 4 <= image@.len(),
        forall|d: u8, s: u8, a: u8| call_requires(*blend, (d, s, a)),
    ensures
        span_blended(old(fb)@, final(fb)@, image@, dst as int, from as int, count as int, *blend),
{
    let ghost start = fb@;
    let _len: usize = fb.len();
    let _image_len: usize = image.len();
    let mut q: usize = 0;
    while q < count
        invariant
            q <= count,
            (dst + count) * 4 <= start.len(),
            (from + count) * 4 <= image@.len(),
            _len == start.len(),
            _image_len == image@.len(),
            forall|d: u8, s: u8, a: u8| call_requires(*blend, (d, s, a)),
            span_blended(start, fb@, image@, dst as int, from as int, q as int, *blend),
        decreases count - q,
    {
        let d: usize = (dst + q) * 4;
        let s: usize = (from + q) * 4;
        let alpha: u8 = image[s + 3];
        let ghost before = fb@;
        let b0: u8 = blend(fb[d], image[s], alpha);
        fb[d] = b0;
        let b1: u8 = blend(fb[d + 1], image[s + 1], alpha);
        fb[d + 1] = b1;
        let b2: u8 = blend(fb[d + 2], image[s + 2], alpha);
        fb[d + 2] = b2;
        proof {
            assert forall|k: int| 0 <= k < start.len() implies if dst * 4 <= k < (dst + q + 1) * 4
                && k % 4 < 3 {
                byte_blended(start, fb@, image@, k, dst as int, from as int, *blend)
            } else {
                fb@[k] == start[k]
            } by {
                if d <= k < d + 4 {
                    assert(k / 4 == dst + q);
                    assert(before[k] == start[k]);
                }
            }
        }
        q = q + 1;
    }
}

/// Blends the cursor image into the framebuffer with its top-left corner at
/// (`x`, `y`): for every on-screen pixel of the image, each colour byte of the
/// framebuffer pixel (blue, green, red) is replaced by what `blend` returns
/// for the framebuffer byte, the image's matching colour byte and the image
/// pixel's alpha byte; the fourth byte and all pixels outside the image stay
/// as they were. The pixels are visited row by row.
pub fn blend_cursor<F: Fn(u8, u8, u8) -> u8>(
    fb: &mut [u8],
    fb_width: usize,
    fb_height: usize,
    x: usize,
    y: usize,
    cursor: &RgbaImage,
    blend: F,
)
    requires
        cursor.wf(),
        forall|d: u8, s: u8, a: u8| call_requires(blend, (d, s, a)),
        cursor.width == 0 || cursor.height == 0 || (x + (cursor.width - 1) <= usize::MAX && y + (
        cursor.height - 1) <= usize::MAX),
        rect_fits(
            old(fb)@.len() as int,
            fb_width as int,
            fb_height as int,
            x as int,
            y as int,
            cursor.width as int,
            cursor.height as int,
        ),
    ensures
        cursor_blended(
            old(fb)@,
            final(fb)@,
            cursor.data@,
            fb_width as int,
            fb_height as int,
            x as int,
            y as int,
            cursor.width as int,
            cursor.height as int,
            blend,
        ),
{
    let ghost start = fb@;
    let w: usize = cursor.width as usize;
    let h: usize = cursor.height as usize;
    let vc: usize = if x >= fb_width {
        0
    } else if w < fb_width - x {
        w
    } else {
        fb_width - x
    };
    let vr: usize = if y >= fb_height {
        0
    } else if h < fb_height - y {
        h
    } else {
        fb_height - y
    };
    let _len: usize = fb.len();
    let image: &[u8] = cursor.data.as_slice();
    let _image_len: usize = image.len();
    let mut r: usize = 0;
    while r < vr
        invariant
            r <= vr,
            vc == clip_len(x as int, w as int, fb_width as int),
            vr == clip_len(y as int, h as int, fb_height as int),
            w == cursor.width,
            h == cursor.height,
            image@ == cursor.data@,
            _image_len == image@.len(),
            cursor.wf(),
            _len == start.len(),
            forall|d: u8, s: u8, a: u8| call_requires(blend, (d, s, a)),
            rect_fits(
                start.len() as int,
                fb_width as int,
                fb_height as int,
                x as int,
                y as int,
                w as int,
                h as int,
            ),
            rect_blended(
                start,
                fb@,
                image@,
                fb_width as int,
                fb_height as int,
                x as int,
                y as int,
                vc as int,
                r as int,
                w as int,
                blend,
            ),
        decreases vr - r,
    {
        if vc > 0 {
            proof {
                vstd::arithmetic::mul::lemma_mul_inequality(
                    (y + r) as int,
                    (y + vr - 1) as int,
                    fb_width as int,
                );
                assert(r * w + vc <= w * h) by (nonlinear_arith)
                    requires r < vr, vr <= h, vc <= w;
            }
            let dst: usize = (y + r) * fb_width + x;
            let from: usize = r * w;
            let ghost before = fb@;
            blend_span(fb, image, dst, from, vc, &blend);
            proof {
                assert forall|k: int| 0 <= k < start.len() implies if in_clipped_rect(
                    k,
                    fb_width as int,
                    fb_height as int,
                    x as int,
                    y as int,
                    vc as int,
                    (r + 1) as int,
                ) && k % 4 < 3 {
                    byte_blended(
                        start,
                        fb@,
                        image@,
                        k,
                        pixel_row(k, fb_width as int) * fb_width + x,
                        (pixel_row(k, fb_width as int) - y) * w,
                        blend,
                    )
                } else {
                    fb@[k] == start[k]
                } by {
                    let p: int = k / 4;
                    let fw: int = fb_width as int;
                    lemma_row_run(p, fw, (y + r) as int, x as int, vc as int);
                    vstd::arithmetic::div_mod::lemma_fundamental_div_mod(p, fw);
                    let row: int = pixel_row(k, fw);
                    if dst * 4 <= k < (dst + vc) * 4 {
                        assert(row == y + r);
                        assert(before[k] == start[k]);
                    } else if in_clipped_rect(k, fw, fb_height as int, x as int, y as int, vc as int, (r + 1) as int) {
                        assert(in_clipped_rect(k, fw, fb_height as int, x as int, y as int, vc as int, r as int));
                        if k % 4 < 3 {
                            assert(byte_blended(start, before, image@, k, row * fw + x, (row - y) * w, blend));
                        }
                    } else {
                        assert(before[k] == start[k]);
                    }
                }
            }
        }
        r = r + 1;
    }
    proof {
        assert forall|k: int| 0 <= k < start.len() implies (in_clipped_rect(
            k,
            fb_width as int,
            fb_height as int,
            x as int,
            y as int,
            vc as int,
            vr as int,
        ) <==> in_clipped_rect(
            k,
            fb_width as int,
            fb_height as int,
            x as int,
            y as int,
            w as int,
            h as int,
        )) by {}
    }
}

/// Erasing undoes drawing: when the cursor image (at most the size of the
/// cursor square, as [`draw_cursor`] draws it) has been blended into the
/// background `background` at (`x`, `y`), copying the cursor square at
/// (`x`, `y`) back from `background` with [`restore_cursor_area`] gives
/// `background` again.
pub proof fn lemma_erase_undoes_draw<F: Fn(u8, u8, u8) -> u8>(
    background: Seq<u8>,
    drawn: Seq<u8>,
    image: Seq<u8>,
    width: int,
    height: int,
    x: int,
    y: int,
    img_width: int,
    img_height: int,
    blend: F,
)
    requires
        cursor_blended(background, drawn, image, width, height, x, y, img_width, img_height, blend),
        img_width <= CURSOR_SIZE,
        img_height <= CURSOR_SIZE,
    ensures
        restored(drawn, background, width, height, x, y) == background,
{
    assert forall|k: int|
        0 <= k < drawn.len() && !in_clipped_rect(k, width, height, x, y, CURSOR_SIZE as int, CURSOR_SIZE as int)
        implies drawn[k] == background[k] by {
        assert(!in_clipped_rect(k, width, height, x, y, img_width, img_height));
    }
    lemma_restore_recovers_background(drawn, background, width, height, x, y);
}

/// Whether [`restore_cursor_area`] can run with these arguments: the cursor
/// square's coordinates fit in `usize` and its visible part lies inside both
/// the framebuffer (`fb_len` bytes) and the cache (`cache_len` bytes).
pub fn can_restore_cursor_area(
    fb_len: usize,
    cache_len: usize,
    fb_width: usize,
    fb_height: usize,
    x: usize,
    y: usize,
) -> (ok: bool)
    ensures
        ok == (x + (CURSOR_SIZE - 1) <= usize::MAX && y + (CURSOR_SIZE - 1) <= usize::MAX
            && cursor_square_fits(fb_len as int, fb_width as int, fb_height as int, x as int, y as int)
            && cursor_square_fits(cache_len as int, fb_width as int, fb_height as int, x as int, y as int)),
{
    x <= usize::MAX - (CURSOR_SIZE - 1) && y <= usize::MAX - (CURSOR_SIZE - 1)
        && rect_fits_in(fb_len, fb_width, fb_height, x, y, CURSOR_SIZE, CURSOR_SIZE)
        && rect_fits_in(cache_len, fb_width, fb_height, x, y, CURSOR_SIZE, CURSOR_SIZE)
}

/// Why the cursor could not be drawn.
#[derive(Clone, Copy, Debug, PartialEq, Eq, Structural)]
pub enum CursorError {
    /// The cursor image file could not be decoded.
    DecodeFailed,
}

/// Whether [`draw_cursor`] can run with these arguments (apart from what it
/// asks of the blending function): the cursor square's coordinates fit in
/// `usize` and its visible part lies inside the framebuffer of `fb_len` bytes.
pub fn can_draw_cursor(fb_len: usize, fb_width: usize, fb_height: usize, x: usize, y: usize) -> (ok: bool)
    ensures
        ok == (x + (CURSOR_SIZE - 1) <= usize::MAX && y + (CURSOR_SIZE - 1) <= usize::MAX
            && cursor_square_fits(fb_len as int, fb_width as int, fb_height as int, x as int, y as int)),
{
    x <= usize::MAX - (CURSOR_SIZE - 1) && y <= usize::MAX - (CURSOR_SIZE - 1) && rect_fits_in(
        fb_len,
        fb_width,
        fb_height,
        x,
        y,
        CURSOR_SIZE,
        CURSOR_SIZE,
    )
}

/// Draws the cursor with its top-left corner at (`x`, `y`): decodes the
/// cursor image file `cursor_file` (whose name ends in `.extension`),
/// resampled to the cursor square (an answer `decoded_resized_rgba8` relates
/// to the file), and blends it in with [`blend_cursor`].
/// When the file does not decode, the framebuffer is left as it was.
pub fn draw_cursor<F: Fn(u8, u8, u8) -> u8>(
    fb: &mut [u8],
    fb_width: usize,
    fb_height: usize,
    x: usize,
    y: usize,
    cursor_file: &[u8],
    extension: &str,
    blend: F,
) -> (result: Result<(), CursorError>)
    requires
        forall|d: u8, s: u8, a: u8| call_requires(blend, (d, s, a)),
        x + (CURSOR_SIZE - 1) <= usize::MAX,
        y + (CURSOR_SIZE - 1) <= usize::MAX,
        cursor_square_fits(old(fb)@.len() as int, fb_width as int, fb_height as int, x as int, y as int),
    ensures
        result is Err ==> result == Err::<(), CursorError>(CursorError::DecodeFailed) && final(fb)@
            == old(fb)@ && decoded_resized_rgba8(cursor_file@, extension@, CURSOR_SIZE as u32, None),
        result is Ok ==> exists|image: Seq<u8>|
            image.len() == CURSOR_SIZE * CURSOR_SIZE * 4 && decoded_resized_rgba8(
                cursor_file@,
                extension@,
                CURSOR_SIZE as u32,
                Some(image),
            ) && #[trigger] cursor_blended(
                old(fb)@,
                final(fb)@,
                image,
                fb_width as int,
                fb_height as int,
                x as int,
                y as int,
                CURSOR_SIZE as int,
                CURSOR_SIZE as int,
                blend,
            ),
{
    match decode_resized_rgba8(cursor_file, extension, CURSOR_SIZE as u32) {
        None => Err(CursorError::DecodeFailed),
        Some(cursor) => {
            let ghost start = fb@;
            blend_cursor(fb, fb_width, fb_height, x, y, &cursor, blend);
            assert(cursor_blended(
                start,
                fb@,
                cursor.data@,
                fb_width as int,
                fb_height as int,
                x as int,
                y as int,
                CURSOR_SIZE as int,
                CURSOR_SIZE as int,
                blend,
            ));
            Ok(())
        },
    }
}

} // verus!
