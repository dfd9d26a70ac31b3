//! The background colour a fresh framebuffer is painted with.

use vstd::prelude::*;
use crate::pixel::{fill_pixel_range, filled};

verus! {

/// The background colour (red, green, blue) shown where no wallpaper is drawn.
pub open spec fn background_color() -> (u8, u8, u8) {
    (0x33, 0x99, 0xFF)
}

/// The framebuffer `old` of a `width` x `height` screen with every pixel
/// painted in the background colour.
pub open spec fn background_filled(old: Seq<u8>, width: u16, height: u16) -> Seq<u8> {
    filled(old, 0, (width as int) * (height as int), background_color())
}

/// Paints all `width * height` pixels of the framebuffer in the background
/// colour: bytes 0xFF, 0x99, 0x33, 0x00 for each pixel.
pub fn fill_background(framebuffer: &mut [u8], width: u16, height: u16)
    requires
        (width as int) * (height as int) * 4 <= old(framebuffer)@.len(),
    ensures
        final(framebuffer)@ == background_filled(old(framebuffer)@, width, height),
        final(framebuffer)@.len() == old(framebuffer)@.len(),
        forall|p: int|
            0 <= p < (width as int) * (height as int) ==> {
                &&& #[trigger] final(framebuffer)@[4 * p] == 0xFF
                &&& final(framebuffer)@[4 * p + 1] == 0x99
                &&& final(framebuffer)@[4 * p + 2] == 0x33
                &&& final(framebuffer)@[4 * p + 3] == 0x00
            },
        forall|k: int|
            (width as int) * (height as int) * 4 <= k < old(framebuffer)@.len()
                ==> #[trigger] final(framebuffer)@[k] == old(framebuffer)@[k],
{
    let _len: usize = framebuffer.len();
    let pixels: usize = (width as usize) * (height as usize);
    fill_pixel_range(framebuffer, 0, pixels, (0x33, 0x99, 0xFF));
}

} // verus!
