use std::io::Cursor;

use vantara::graphics::wallpaper::{decode_wallpaper, wallpaper_image, WallpaperError};
use vantara::input::cursor::{can_draw_cursor, draw_cursor, restore_cursor_area, CursorError, CURSOR_SIZE};
use vantara::raster::RgbaImage;

fn png_bytes(width: u32, height: u32, pixel: [u8; 4]) -> Vec<u8> {
    let data: Vec<u8> = (0..width * height).flat_map(|_| pixel).collect();
    let buffer = image::RgbaImage::from_raw(width, height, data).unwrap();
    let mut out = Cursor::new(Vec::new());
    buffer.write_to(&mut out, image::ImageFormat::Png).unwrap();
    out.into_inner()
}

fn keep_source(_dst: u8, src: u8, _alpha: u8) -> u8 {
    src
}

#[test]
fn wallpaper_png_decodes_to_rgba() {
    let bytes = png_bytes(3, 2, [1, 2, 3, 4]);
    let image = decode_wallpaper(&bytes, "png").unwrap();
    assert_eq!((image.width, image.height), (3, 2));
    assert_eq!(image.data, [1u8, 2, 3, 4].repeat(6));
}

#[test]
fn wallpaper_with_unknown_extension_does_not_decode() {
    let bytes = png_bytes(1, 1, [0, 0, 0, 255]);
    assert_eq!(decode_wallpaper(&bytes, "").err(), Some(WallpaperError::DecodeFailed));
    assert_eq!(decode_wallpaper(&bytes, "notaformat").err(), Some(WallpaperError::DecodeFailed));
}

#[test]
fn corrupt_wallpaper_does_not_decode() {
    assert_eq!(decode_wallpaper(&[1, 2, 3], "png").err(), Some(WallpaperError::DecodeFailed));
}

#[test]
fn decoder_answer_maps_to_wallpaper_result() {
    assert_eq!(wallpaper_image(None).err(), Some(WallpaperError::DecodeFailed));
    let image = wallpaper_image(Some(RgbaImage { width: 1, height: 1, data: vec![1, 2, 3, 4] })).unwrap();
    assert_eq!(image.data, vec![1, 2, 3, 4]);
}

#[test]
fn cursor_is_resampled_to_the_cursor_square() {
    let (w, h) = (40usize, 30usize);
    let mut fb = vec![9u8; w * h * 4];
    let bytes = png_bytes(2, 2, [10, 20, 30, 255]);
    assert!(can_draw_cursor(fb.len(), w, h, 30, 20));
    assert_eq!(draw_cursor(&mut fb, w, h, 30, 20, &bytes, "png", keep_source), Ok(()));
    for y in 0..h {
        for x in 0..w {
            let o = (y * w + x) * 4;
            if (30..30 + CURSOR_SIZE).contains(&x) && (20..20 + CURSOR_SIZE).contains(&y) {
                assert_eq!(&fb[o..o + 4], &[10, 20, 30, 9]);
            } else {
                assert_eq!(&fb[o..o + 4], &[9, 9, 9, 9]);
            }
        }
    }
}

#[test]
fn undecodable_cursor_leaves_the_framebuffer() {
    let mut fb = vec![5u8; 30 * 30 * 4];
    assert_eq!(draw_cursor(&mut fb, 30, 30, 0, 0, &[0, 1], "png", keep_source), Err(CursorError::DecodeFailed));
    assert_eq!(fb, vec![5u8; 30 * 30 * 4]);
}

#[test]
fn erasing_a_drawn_cursor_restores_the_background() {
    let (w, h) = (50usize, 40usize);
    let background: Vec<u8> = (0..w * h * 4).map(|i| (i * 13 % 256) as u8).collect();
    let mut fb = background.clone();
    let bytes = png_bytes(3, 3, [200, 100, 50, 255]);
    draw_cursor(&mut fb, w, h, 40, 5, &bytes, "png", keep_source).unwrap();
    assert_ne!(fb, background);
    restore_cursor_area(&mut fb, &background, w, h, 40, 5);
    assert_eq!(fb, background);
}

#[test]
fn draw_check_rejects_short_framebuffers() {
    assert!(!can_draw_cursor(10, 30, 30, 0, 0));
    assert!(!can_draw_cursor(30 * 30 * 4, 30, 30, usize::MAX, 0));
}
