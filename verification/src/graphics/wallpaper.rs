//! Placing a wallpaper image on the screen according to a [`WallpaperMode`]
//! and drawing it into an XRGB8888 framebuffer.

use vstd::prelude::*;
use crate::pixel::{
    clip_len, copy_rect, pixel_row, rect_copied, rect_fits, rect_fits_in, source_fits,
    PixelConversion,
};
use crate::raster::{
    decode_rgba8, decoded_rgba8, decoded_view, lanczos3_resampling, resizable, resize_lanczos3,
    RgbaImage,
};

verus! {

/// How the wallpaper image is fitted to the screen.
#[derive(Clone, Copy, Debug, PartialEq, Eq, Structural)]
pub enum WallpaperMode {
    /// Scaled by the smaller of the two screen/image ratios, so that the whole
    /// image shows, and centred (up to rounding of the scaled size).
    Fit,
    /// Scaled by the larger of the two ratios, so that the image covers the
    /// screen; centred along a side where it is shorter than the screen and
    /// drawn from the screen's edge (cropping the right or bottom) where it is
    /// longer.
    Fill,
    /// Scaled to exactly the screen size.
    Stretch,
    /// Drawn at its own size, centred along a side where it is shorter than
    /// the screen and drawn from the screen's edge where it is longer.
    Center,
}

/// Why a wallpaper could not be drawn.
#[derive(Clone, Copy, Debug, PartialEq, Eq, Structural)]
pub enum WallpaperError {
    /// Scaling left the image without a row or a column of pixels.
    TooSmallAfterScaling,
    /// The image file could not be decoded.
    DecodeFailed,
}

/// Where and at what size the wallpaper is drawn.
#[derive(Clone, Copy, Debug, PartialEq, Eq, Structural)]
pub struct Placement {
    pub width: u32,
    pub height: u32,
    pub offset_x: usize,
    pub offset_y: usize,
}

/// Offset that centres `size` pixels on a screen `screen` pixels long; zero
/// when the image is at least as long as the screen.
pub open spec fn centred_offset(screen: usize, size: u32) -> usize {
    (screen.saturating_sub(size as usize) / 2) as usize
}

/// Where the wallpaper goes. `scaled` is the image size after scaling by the
/// mode's factor (only `Fit` and `Fill` use it).
pub open spec fn placement_for(
    mode: WallpaperMode,
    fb_width: usize,
    fb_height: usize,
    img_width: u32,
    img_height: u32,
    scaled: (u32, u32),
) -> Result<Placement, WallpaperError> {
    match mode {
        WallpaperMode::Fit | WallpaperMode::Fill => if scaled.0 == 0 || scaled.1 == 0 {
            Err(WallpaperError::TooSmallAfterScaling)
        } else {
            Ok(
                Placement {
                    width: scaled.0,
                    height: scaled.1,
                    offset_x: centred_offset(fb_width, scaled.0),
                    offset_y: centred_offset(fb_height, scaled.1),
                },
            )
        },
        WallpaperMode::Stretch => Ok(
            Placement { width: fb_width as u32, height: fb_height as u32, offset_x: 0, offset_y: 0 },
        ),
        WallpaperMode::Center => Ok(
            Placement {
                width: img_width,
                height: img_height,
                offset_x: centred_offset(fb_width, img_width),
                offset_y: centred_offset(fb_height, img_height),
            },
        ),
    }
}

/// What any placement of the wallpaper must satisfy, said of the mode's inputs
/// directly:
/// - `Fit` and `Fill` fail exactly when a side of the scaled size is zero, and
///   otherwise draw the image at exactly the scaled size;
/// - `Stretch` draws it at the screen's size from the top-left corner;
/// - `Center` draws it at its own size;
/// - whatever the mode but `Stretch`, along each side the image is centred
///   when it is shorter than the screen (the gaps before and after it differ
///   by at most one pixel) and starts at the screen's edge otherwise, so a
///   `Fill` image at least as large as the screen covers it from the corner.
pub open spec fn placement_laws(
    mode: WallpaperMode,
    fb_width: usize,
    fb_height: usize,
    img_width: u32,
    img_height: u32,
    scaled: (u32, u32),
    placement: Result<Placement, WallpaperError>,
) -> bool {
    &&& (mode == WallpaperMode::Fit || mode == WallpaperMode::Fill) ==> (placement is Err <==> (
    scaled.0 == 0 || scaled.1 == 0))
    &&& placement matches Err(e) ==> e == WallpaperError::TooSmallAfterScaling
    &&& (mode == WallpaperMode::Fit || mode == WallpaperMode::Fill) ==> (placement matches Ok(p)
        ==> p.width == scaled.0 && p.height == scaled.1)
    &&& mode == WallpaperMode::Stretch ==> (placement matches Ok(p) && p.width == fb_width as u32
        && p.height == fb_height as u32 && p.offset_x == 0 && p.offset_y == 0)
    &&& mode == WallpaperMode::Center ==> (placement matches Ok(p) && p.width == img_width
        && p.height == img_height)
    &&& mode != WallpaperMode::Stretch ==> (placement matches Ok(p) ==> {
        &&& p.width >= fb_width ==> p.offset_x == 0
        &&& p.width < fb_width ==> 2 * p.offset_x + p.width <= fb_width <= 2 * p.offset_x + p.width + 1
        &&& p.height >= fb_height ==> p.offset_y == 0
        &&& p.height < fb_height ==> 2 * p.offset_y + p.height <= fb_height <= 2 * p.offset_y
            + p.height + 1
    })
}

/// The placement rule obeys [`placement_laws`] for every screen, image, mode
/// and scaled size: `Fit` and `Fill` draw at exactly the scaled size, centred
/// or from the edge, and fail only for an empty scaled size.
pub proof fn lemma_placement_laws(
    mode: WallpaperMode,
    fb_width: usize,
    fb_height: usize,
    img_width: u32,
    img_height: u32,
    scaled: (u32, u32),
)
    ensures
        placement_laws(
            mode,
            fb_width,
            fb_height,
            img_width,
            img_height,
            scaled,
            placement_for(mode, fb_width, fb_height, img_width, img_height, scaled),
        ),
{
}

/// Decides where and at what size the wallpaper is drawn: `Fit` and `Fill`
/// take the scaled size and centre it (failing when a side is zero),
/// `Stretch` takes the screen size at the origin, `Center` keeps the image
/// size and centres it.
pub fn plan_wallpaper(
    mode: WallpaperMode,
    fb_width: usize,
    fb_height: usize,
    img_width: u32,
    img_height: u32,
    scaled: (u32, u32),
) -> (placement: Result<Placement, WallpaperError>)
    ensures
        placement == placement_for(mode, fb_width, fb_height, img_width, img_height, scaled),
        placement_laws(mode, fb_width, fb_height, img_width, img_height, scaled, placement),
{
    match mode {
        WallpaperMode::Fit | WallpaperMode::Fill => {
            let new_w: u32 = scaled.0;
            let new_h: u32 = scaled.1;
            if new_w == 0 || new_h == 0 {
                return Err(WallpaperError::TooSmallAfterScaling);
            }
            let offset_x: usize = fb_width.saturating_sub(new_w as usize) / 2;
            let offset_y: usize = fb_height.saturating_sub(new_h as usize) / 2;
            Ok(Placement { width: new_w, height: new_h, offset_x, offset_y })
        },
        WallpaperMode::Stretch => Ok(
            Placement { width: fb_width as u32, height: fb_height as u32, offset_x: 0, offset_y: 0 },
        ),
        WallpaperMode::Center => {
            let offset_x: usize = fb_width.saturating_sub(img_width as usize) / 2;
            let offset_y: usize = fb_height.saturating_sub(img_height as usize) / 2;
            Ok(Placement { width: img_width, height: img_height, offset_x, offset_y })
        },
    }
}

/// Drawing an image at `placement` into a framebuffer of `len` bytes stays
/// within the machine's limits: the screen coordinates of the image's pixels
/// fit in `usize`, every visible pixel lies inside the framebuffer, and the
/// byte index of every visible image pixel fits in `u32`.
pub open spec fn placement_drawable(len: int, fb_width: usize, fb_height: usize, placement: Placement) -> bool {
    let nw = placement.width as int;
    let nh = placement.height as int;
    let ox = placement.offset_x as int;
    let oy = placement.offset_y as int;
    let vc = clip_len(ox, nw, fb_width as int);
    let vr = clip_len(oy, nh, fb_height as int);
    &&& nw == 0 || nh == 0 || (ox + nw - 1 <= usize::MAX && oy + nh - 1 <= usize::MAX)
    &&& rect_fits(len, fb_width as int, fb_height as int, ox, oy, nw, nh)
    &&& vc == 0 || vr == 0 || ((vr - 1) * nw + vc - 1) * 4 <= u32::MAX
}

/// Drawing the wallpaper at `placement` stays within the machine's limits:
/// the resampler (used by every mode but `Center`) can allocate its buffers,
/// and the placed image can be drawn (see [`placement_drawable`]).
pub open spec fn wallpaper_drawable(
    len: int,
    fb_width: usize,
    fb_height: usize,
    img_width: u32,
    mode: WallpaperMode,
    placement: Placement,
) -> bool {
    &&& mode != WallpaperMode::Center ==> resizable(img_width, placement.width, placement.height)
    &&& placement_drawable(len, fb_width, fb_height, placement)
}

/// Draws the `placement.width` x `placement.height` RGBA image `pixels` (rows
/// one after the other) with its top-left corner at the placement's offset:
/// each visible pixel is written in XRGB8888 order (blue, green, red, zero);
/// pixels off the screen are skipped and the rest of the framebuffer keeps its
/// bytes.
pub fn draw_placed_wallpaper(
    framebuffer: &mut [u8],
    fb_width: usize,
    fb_height: usize,
    pixels: &[u8],
    placement: Placement,
)
    requires
        pixels@.len() == (placement.width as int) * (placement.height as int) * 4,
        placement_drawable(old(framebuffer)@.len() as int, fb_width, fb_height, placement),
    ensures
        final(framebuffer)@ == rect_copied(
            old(framebuffer)@,
            pixels@,
            fb_width as int,
            fb_height as int,
            placement.offset_x as int,
            placement.offset_y as int,
            placement.width as int,
            placement.height as int,
            placement.width as int,
            0,
            0,
            PixelConversion::RgbaToXrgb,
        ),
{
    let nw: usize = placement.width as usize;
    let nh: usize = placement.height as usize;
    proof {
        let vc: int = clip_len(placement.offset_x as int, nw as int, fb_width as int);
        let vr: int = clip_len(placement.offset_y as int, nh as int, fb_height as int);
        if vc > 0 && vr > 0 {
            assert((vr - 1) * nw + vc <= nw * nh) by (nonlinear_arith)
                requires 0 < vr <= nh, 0 < vc <= nw;
        }
    }
    copy_rect(
        framebuffer,
        pixels,
        fb_width,
        fb_height,
        placement.offset_x,
        placement.offset_y,
        nw,
        nh,
        nw,
        0,
        0,
        PixelConversion::RgbaToXrgb,
    );
}

/// Draws `image` as the wallpaper, placed according to `mode` (see
/// [`plan_wallpaper`]; `scaled` is the size `Fit` and `Fill` scale the image
/// to). Except for `Center`, the image is first resampled to the placement's
/// size with the Lanczos3 filter (a resampling of `image` in the sense of
/// `lanczos3_resampling`), and the resampled pixels are drawn as
/// [`draw_placed_wallpaper`] says. Each visible pixel is written in XRGB8888
/// order (blue, green, red, zero); pixels off the screen are skipped and the
/// rest of the framebuffer keeps its bytes. Fails, leaving the framebuffer as
/// it was, when scaling leaves no pixel.
pub fn draw_wallpaper_to_framebuffer(
    framebuffer: &mut [u8],
    fb_width: usize,
    fb_height: usize,
    image: &RgbaImage,
    mode: WallpaperMode,
    scaled: (u32, u32),
) -> (result: Result<(), WallpaperError>)
    requires
        image.wf(),
        placement_for(mode, fb_width, fb_height, image.width, image.height, scaled) matches Ok(
            placement,
        ) ==> wallpaper_drawable(
            old(framebuffer)@.len() as int,
            fb_width,
            fb_height,
            image.width,
            mode,
            placement,
        ),
    ensures
        match placement_for(mode, fb_width, fb_height, image.width, image.height, scaled) {
            Err(e) => result == Err::<(), WallpaperError>(e) && final(framebuffer)@ == old(framebuffer)@,
            Ok(placement) => {
                &&& result is Ok
                &&& mode == WallpaperMode::Center ==> final(framebuffer)@ == rect_copied(
                    old(framebuffer)@,
                    image.data@,
                    fb_width as int,
                    fb_height as int,
                    placement.offset_x as int,
                    placement.offset_y as int,
                    placement.width as int,
                    placement.height as int,
                    placement.width as int,
                    0,
                    0,
                    PixelConversion::RgbaToXrgb,
                )
                &&& mode != WallpaperMode::Center ==> exists|pixels: Seq<u8>|
                    pixels.len() == (placement.width as int) * (placement.height as int) * 4
                        && lanczos3_resampling(
                        image.data@,
                        image.width,
                        image.height,
                        placement.width,
                        placement.height,
                        pixels,
                    ) && final(framebuffer)@ == #[trigger] rect_copied(
                        old(framebuffer)@,
                        pixels,
                        fb_width as int,
                        fb_height as int,
                        placement.offset_x as int,
                        placement.offset_y as int,
                        placement.width as int,
                        placement.height as int,
                        placement.width as int,
                        0,
                        0,
                        PixelConversion::RgbaToXrgb,
                    )
            },
        },
{
    let placement = match plan_wallpaper(mode, fb_width, fb_height, image.width, image.height, scaled) {
        Ok(placement) => placement,
        Err(e) => return Err(e),
    };
    match mode {
        WallpaperMode::Center => {
            draw_placed_wallpaper(framebuffer, fb_width, fb_height, image.data.as_slice(), placement);
        },
        _ => {
            let resized = resize_lanczos3(image, placement.width, placement.height);
            let ghost start = framebuffer@;
            draw_placed_wallpaper(
                framebuffer,
                fb_width,
                fb_height,
                resized.data.as_slice(),
                placement,
            );
            assert(framebuffer@ == rect_copied(
                start,
                resized.data@,
                fb_width as int,
                fb_height as int,
                placement.offset_x as int,
                placement.offset_y as int,
                placement.width as int,
                placement.height as int,
                placement.width as int,
                0,
                0,
                PixelConversion::RgbaToXrgb,
            ));
        },
    }
    Ok(())
}

/// Whether the resampler can allocate its buffers for these sizes (see
/// [`resizable`]).
fn can_resize(width: u32, new_width: u32, new_height: u32) -> (ok: bool)
    ensures
        ok == resizable(width, new_width, new_height),
{
    let nh: usize = new_height as usize;
    let result_ok: bool = match (new_width as usize).checked_mul(nh) {
        None => {
            assert((new_width as int) * (new_height as int) * 4 > usize::MAX) by (nonlinear_arith)
                requires (new_width as int) * (nh as int) > usize::MAX, nh == new_height;
            false
        },
        Some(p) => p.checked_mul(4).is_some(),
    };
    let scratch_ok: bool = match (width as usize).checked_mul(nh) {
        None => {
            assert((width as int) * (new_height as int) * 4 > usize::MAX) by (nonlinear_arith)
                requires (width as int) * (nh as int) > usize::MAX, nh == new_height;
            false
        },
        Some(p) => p.checked_mul(4).is_some(),
    };
    result_ok && scratch_ok
}

/// Whether [`draw_wallpaper_to_framebuffer`] can run with these arguments: the
/// image is well formed and, when the wallpaper can be placed, drawing it
/// into a framebuffer of `fb_len` bytes stays within the machine's limits
/// (see [`wallpaper_drawable`]).
pub fn can_draw_wallpaper(
    fb_len: usize,
    fb_width: usize,
    fb_height: usize,
    image: &RgbaImage,
    mode: WallpaperMode,
    scaled: (u32, u32),
) -> (ok: bool)
    ensures
        ok == (image.wf() && (placement_for(mode, fb_width, fb_height, image.width, image.height, scaled)
            matches Ok(placement) ==> wallpaper_drawable(
            fb_len as int,
            fb_width,
            fb_height,
            image.width,
            mode,
            placement,
        ))),
{
    if !image.is_well_formed() {
        return false;
    }
    let placement = match plan_wallpaper(mode, fb_width, fb_height, image.width, image.height, scaled) {
        Err(_) => return true,
        Ok(placement) => placement,
    };
    let nw: usize = placement.width as usize;
    let nh: usize = placement.height as usize;
    let ox: usize = placement.offset_x;
    let oy: usize = placement.offset_y;
    let resize_ok: bool = match mode {
        WallpaperMode::Center => true,
        _ => can_resize(image.width, placement.width, placement.height),
    };
    let coords_ok: bool = nw == 0 || nh == 0 || (ox <= usize::MAX - (nw - 1) && oy <= usize::MAX
        - (nh - 1));
    let fits: bool = rect_fits_in(fb_len, fb_width, fb_height, ox, oy, nw, nh);
    let vc: usize = if ox >= fb_width {
        0
    } else if nw < fb_width - ox {
        nw
    } else {
        fb_width - ox
    };
    let vr: usize = if oy >= fb_height {
        0
    } else if nh < fb_height - oy {
        nh
    } else {
        fb_height - oy
    };
    let index_ok: bool = if vc == 0 || vr == 0 {
        true
    } else {
        let rows: u64 = (vr - 1) as u64;
        assert(rows * (placement.width as u64) + (vc - 1) <= u64::MAX) by (nonlinear_arith)
            requires
                rows <= u32::MAX,
                placement.width <= u32::MAX,
                1 <= vc <= placement.width,
        ;
        let last: u64 = rows * (placement.width as u64) + (vc - 1) as u64;
        last <= (u32::MAX / 4) as u64
    };
    resize_ok && coords_ok && fits && index_ok
}

/// The wallpaper is centred: whenever the placed image is narrower (or lower)
/// than the screen, the space left of it equals the space right of it, up to
/// one pixel (likewise above and below); otherwise it starts at the screen's
/// edge.
pub proof fn lemma_wallpaper_centred(
    mode: WallpaperMode,
    fb_width: usize,
    fb_height: usize,
    img_width: u32,
    img_height: u32,
    scaled: (u32, u32),
)
    requires
        mode != WallpaperMode::Stretch,
        placement_for(mode, fb_width, fb_height, img_width, img_height, scaled) is Ok,
    ensures
        ({
            let p = placement_for(mode, fb_width, fb_height, img_width, img_height, scaled)->Ok_0;
            &&& p.width < fb_width ==> {
                &&& p.offset_x + p.width + p.offset_x <= fb_width
                &&& fb_width - (p.offset_x + p.width) - p.offset_x <= 1
            }
            &&& p.width >= fb_width ==> p.offset_x == 0
            &&& p.height < fb_height ==> {
                &&& p.offset_y + p.height + p.offset_y <= fb_height
                &&& fb_height - (p.offset_y + p.height) - p.offset_y <= 1
            }
            &&& p.height >= fb_height ==> p.offset_y == 0
        }),
{
}

/// What becomes of the decoder's answer: a decoded image is the wallpaper, no
/// image is [`WallpaperError::DecodeFailed`].
pub fn wallpaper_image(decoded: Option<RgbaImage>) -> (image: Result<RgbaImage, WallpaperError>)
    ensures
        match decoded {
            Some(i) => image == Ok::<RgbaImage, WallpaperError>(i),
            None => image == Err::<RgbaImage, WallpaperError>(WallpaperError::DecodeFailed),
        },
{
    match decoded {
        Some(i) => Ok(i),
        None => Err(WallpaperError::DecodeFailed),
    }
}

/// Decodes the wallpaper file `bytes`, whose name ends in `.extension` (the
/// extension picks the format), into an RGBA image; fails with
/// [`WallpaperError::DecodeFailed`] when the format is not supported or the
/// file does not decode.
pub fn decode_wallpaper(bytes: &[u8], extension: &str) -> (image: Result<RgbaImage, WallpaperError>)
    ensures
        image matches Ok(i) ==> i.wf() && decoded_rgba8(bytes@, extension@, Some((i.width, i.height, i.data@))),
        image matches Err(e) ==> e == WallpaperError::DecodeFailed && decoded_rgba8(bytes@, extension@, None),
{
    wallpaper_image(decode_rgba8(bytes, extension))
}

/// The colour of a wallpaper pixel never depends on the image's alpha bytes:
/// two images that differ only in their alpha bytes (every fourth byte) draw
/// the same framebuffer, and the fourth byte of every pixel they cover is 0.
pub proof fn lemma_wallpaper_ignores_alpha(
    old: Seq<u8>,
    first: Seq<u8>,
    second: Seq<u8>,
    fb_width: int,
    fb_height: int,
    ox: int,
    oy: int,
    w: int,
    h: int,
)
    requires
        0 <= w,
        0 <= h,
        first.len() == w * h * 4,
        second.len() == first.len(),
        forall|i: int| 0 <= i < first.len() && i % 4 != 3 ==> first[i] == second[i],
    ensures
        rect_copied(old, first, fb_width, fb_height, ox, oy, w, h, w, 0, 0, PixelConversion::RgbaToXrgb)
            == rect_copied(old, second, fb_width, fb_height, ox, oy, w, h, w, 0, 0, PixelConversion::RgbaToXrgb),
        forall|k: int|
            0 <= k < old.len() && k % 4 == 3 && crate::pixel::in_clipped_rect(k, fb_width, fb_height, ox, oy, w, h)
                ==> #[trigger] rect_copied(old, first, fb_width, fb_height, ox, oy, w, h, w, 0, 0, PixelConversion::RgbaToXrgb)[k] == 0,
{
    let a = rect_copied(old, first, fb_width, fb_height, ox, oy, w, h, w, 0, 0, PixelConversion::RgbaToXrgb);
    let b = rect_copied(old, second, fb_width, fb_height, ox, oy, w, h, w, 0, 0, PixelConversion::RgbaToXrgb);
    assert forall|k: int| 0 <= k < old.len() implies a[k] == b[k] by {
        if crate::pixel::in_clipped_rect(k, fb_width, fb_height, ox, oy, w, h) && k % 4 != 3 {
            let r: int = pixel_row(k, fb_width) - oy;
            let c: int = crate::pixel::pixel_col(k, fb_width) - ox;
            let q: int = r * w + c;
            assert(0 <= q < w * h) by (nonlinear_arith)
                requires 0 <= r < h, 0 <= c < w, q == r * w + c;
            let i: int = q * 4 + 2 - k % 4;
            assert(0 <= i < first.len() && i % 4 != 3);
            assert(first[i] == second[i]);
        }
    }
    assert(a =~= b);
}

} // verus!
