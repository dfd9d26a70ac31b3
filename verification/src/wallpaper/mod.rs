//! Copying an already decoded image, pixel bytes unchanged, into the framebuffer.

use vstd::prelude::*;
use crate::pixel::{clip_len, copy_rect, rect_copied, rect_fits, source_fits, PixelConversion};

verus! {

/// Copies the `img_width` x `img_height` image `image_data` (four bytes per
/// pixel, rows one after the other) into the framebuffer with its top-left
/// corner at (`x_offset`, `y_offset`). Pixels that fall off the screen are
/// skipped; the four bytes of every other pixel are copied as they are.
pub fn draw_wallpaper_to_framebuffer(
    framebuffer: &mut [u8],
    fb_width: usize,
    fb_height: usize,
    image_data: &[u8],
    img_width: usize,
    img_height: usize,
    x_offset: usize,
    y_offset: usize,
)
    requires
        img_width == 0 || img_height == 0 || x_offset + (img_width - 1) <= usize::MAX,
        img_width == 0 || img_height == 0 || y_offset + (img_height - 1) <= usize::MAX,
        rect_fits(
            old(framebuffer)@.len() as int,
            fb_width as int,
            fb_height as int,
            x_offset as int,
            y_offset as int,
            img_width as int,
            img_height as int,
        ),
        source_fits(
            image_data@.len() as int,
            img_width as int,
            0,
            0,
            clip_len(x_offset as int, img_width as int, fb_width as int),
            clip_len(y_offset as int, img_height as int, fb_height as int),
        ),
    ensures
        final(framebuffer)@ == rect_copied(
            old(framebuffer)@,
            image_data@,
            fb_width as int,
            fb_height as int,
            x_offset as int,
            y_offset as int,
            img_width as int,
            img_height as int,
            img_width as int,
            0,
            0,
            PixelConversion::Verbatim,
        ),
{
    copy_rect(
        framebuffer,
        image_data,
        fb_width,
        fb_height,
        x_offset,
        y_offset,
        img_width,
        img_height,
        img_width,
        0,
        0,
        PixelConversion::Verbatim,
    );
}

} // verus!
