//! Decoded RGBA images and the resampling the drawing code asks of the
//! `image` crate.

use vstd::prelude::*;

verus! {

/// A decoded image with four bytes per pixel (red, green, blue, alpha), the
/// rows stored one after the other.
pub struct RgbaImage {
    pub width: u32,
    pub height: u32,
    pub data: Vec<u8>,
}

impl RgbaImage {
    /// The pixel bytes are exactly `width * height` pixels.
    pub open spec fn wf(&self) -> bool {
        self.data@.len() == (self.width as int) * (self.height as int) * 4
    }

    /// Whether the pixel bytes are exactly `width * height` pixels.
    pub fn is_well_formed(&self) -> (ok: bool)
        ensures
            ok == self.wf(),
    {
        let w: usize = self.width as usize;
        let h: usize = self.height as usize;
        let data_len: usize = self.data.len();
        match w.checked_mul(h) {
            None => {
                assert((w as int) * (h as int) * 4 > usize::MAX) by (nonlinear_arith)
                    requires w * h > usize::MAX;
                false
            },
            Some(pixels) => match pixels.checked_mul(4) {
                None => false,
                Some(bytes) => bytes == data_len,
            },
        }
    }
}

/// Sizes for which `image::imageops::resize` can allocate its buffers: the
/// intermediate image (old width, new height, four `f32` values per pixel) and
/// the result (four bytes per pixel) both have a length that fits in `usize`.
pub open spec fn resizable(width: u32, new_width: u32, new_height: u32) -> bool {
    &&& (new_width as int) * (new_height as int) * 4 <= usize::MAX
    &&& (width as int) * (new_height as int) * 4 <= usize::MAX
}

/// `resized` is a result `image::imageops::resize` with the Lanczos3 filter
/// may give when it scales the `width` x `height` RGBA image `source` to
/// `new_width` x `new_height`. A relation, not a function: the filter computes
/// in `f32` with `f32::sin`, whose precision std leaves to the platform.
pub uninterp spec fn lanczos3_resampling(
    source: Seq<u8>,
    width: u32,
    height: u32,
    new_width: u32,
    new_height: u32,
    resized: Seq<u8>,
) -> bool;

/// `image` is an answer the decoder may give for the image file `file` whose
/// name ends in `.extension`: `Some((width, height, rgba_bytes))` for a decoded
/// image, `None` when it does not decode.
pub uninterp spec fn decoded_rgba8(
    file: Seq<u8>,
    extension: Seq<char>,
    image: Option<(u32, u32, Seq<u8>)>,
) -> bool;

/// `image` is an answer the decoder may give for the image file `file` whose
/// name ends in `.extension`, once the decoded image is resampled to `size` x
/// `size`: `Some(rgba_bytes)`, or `None` when the file does not decode.
pub uninterp spec fn decoded_resized_rgba8(
    file: Seq<u8>,
    extension: Seq<char>,
    size: u32,
    image: Option<Seq<u8>>,
) -> bool;

/// The decoder's answer as the relations above take it.
pub open spec fn decoded_view(image: Option<RgbaImage>) -> Option<(u32, u32, Seq<u8>)> {
    match image {
        Some(i) => Some((i.width, i.height, i.data@)),
        None => None,
    }
}

/// Scales `image` to `new_width` x `new_height` with
/// `image::imageops::resize` and `FilterType::Lanczos3`, after wrapping its
/// bytes in an `image::RgbaImage` with `ImageBuffer::from_raw`.
/// Trusted: the result has the requested size and exactly four bytes per
/// pixel, which is what `ImageBuffer::new` allocates for it, and its bytes are
/// a resampling of `image` (`lanczos3_resampling`). Which bytes exactly is left
/// unsaid: the filter computes in `f32` with `f32::sin`, whose precision std
/// leaves to the platform, so they need not be the same from one machine (or
/// one call) to the next.
#[verifier::external_body]
pub(crate) fn resize_lanczos3(image: &RgbaImage, new_width: u32, new_height: u32) -> (resized: RgbaImage)
    requires
        image.wf(),
        resizable(image.width, new_width, new_height),
    ensures
        resized.width == new_width,
        resized.height == new_height,
        resized.wf(),
        lanczos3_resampling(image.data@, image.width, image.height, new_width, new_height, resized.data@),
{
    let source = image::RgbaImage::from_raw(image.width, image.height, image.data.clone()).unwrap();
    let scaled = image::imageops::resize(
        &source,
        new_width,
        new_height,
        image::imageops::FilterType::Lanczos3,
    );
    RgbaImage { width: new_width, height: new_height, data: scaled.into_raw() }
}

/// Decodes `bytes`, an image file whose name ends in `.extension`, and
/// converts it to RGBA with eight bits per channel: the format is chosen with
/// `image::ImageFormat::from_extension`, decoded with
/// `image::ImageReader::with_format(..).decode()` and converted with
/// `DynamicImage::to_rgba8`.
/// Trusted: the answer is the decoder's for these bytes and this extension
/// (`decoded_rgba8`), and a decoded image has exactly four bytes per pixel
/// (what `to_rgba8` allocates); `None` when the extension names no supported
/// format or the decoder reports an error. Which files decode, and to which
/// pixels, is left unsaid.
#[verifier::external_body]
pub(crate) fn decode_rgba8(bytes: &[u8], extension: &str) -> (image: Option<RgbaImage>)
    ensures
        image matches Some(i) ==> i.wf(),
        decoded_rgba8(bytes@, extension@, decoded_view(image)),
{
    let format = image::ImageFormat::from_extension(extension)?;
    let decoded = image::ImageReader::with_format(std::io::Cursor::new(bytes), format).decode().ok()?;
    let rgba = decoded.to_rgba8();
    let (width, height) = rgba.dimensions();
    Some(RgbaImage { width, height, data: rgba.into_raw() })
}

/// Decodes `bytes` as [`decode_rgba8`] does, but resamples the decoded image
/// to `size` x `size` with `DynamicImage::resize_exact` and
/// `FilterType::Lanczos3` before converting it with `to_rgba8`.
/// Trusted: the answer is the decoder's for these bytes, this extension and
/// this size (`decoded_resized_rgba8`), and a decoded image is `size` x `size`
/// with exactly four bytes per pixel; `None` when the extension names no supported format or the decoder
/// reports an error. The pixels are left unsaid. Not covered: the resampler
/// panics when the decoded width times `size` times four overflows `usize`,
/// which only a target with a 32-bit `usize` and an image tens of millions of
/// pixels wide can reach; the bytes alone do not show the width beforehand.
#[verifier::external_body]
pub(crate) fn decode_resized_rgba8(bytes: &[u8], extension: &str, size: u32) -> (image: Option<RgbaImage>)
    ensures
        image matches Some(i) ==> i.wf() && i.width == size && i.height == size,
        decoded_resized_rgba8(
            bytes@,
            extension@,
            size,
            match image {
                Some(i) => Some(i.data@),
                None => None,
            },
        ),
{
    let format = image::ImageFormat::from_extension(extension)?;
    let decoded = image::ImageReader::with_format(std::io::Cursor::new(bytes), format).decode().ok()?;
    let rgba = decoded.resize_exact(size, size, image::imageops::FilterType::Lanczos3).to_rgba8();
    let (width, height) = rgba.dimensions();
    Some(RgbaImage { width, height, data: rgba.into_raw() })
}

} // verus!
