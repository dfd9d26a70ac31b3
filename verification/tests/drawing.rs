use vantara::graphics::wallpaper::can_draw_wallpaper;
use vantara::display::framebuffer::fill_background;
use vantara::graphics::wallpaper::{plan_wallpaper, Placement};
use vantara::graphics::{
    draw_panels_to_framebuffer, draw_wallpaper_to_framebuffer, WallpaperError, WallpaperMode,
};
use vantara::pixel::{copy_rect, fill_pixel_range, PixelConversion};
use vantara::raster::RgbaImage;

fn pixel(fb: &[u8], width: usize, x: usize, y: usize) -> [u8; 4] {
    let o = (y * width + x) * 4;
    [fb[o], fb[o + 1], fb[o + 2], fb[o + 3]]
}

#[test]
fn fill_pixel_range_writes_xrgb_order() {
    let mut fb = vec![7u8; 16];
    fill_pixel_range(&mut fb, 1, 3, (10, 20, 30));
    assert_eq!(fb, vec![7, 7, 7, 7, 30, 20, 10, 0, 30, 20, 10, 0, 7, 7, 7, 7]);
}

#[test]
fn fill_background_paints_every_pixel() {
    let mut fb = vec![1u8; 2 * 3 * 4 + 4];
    fill_background(&mut fb, 2, 3);
    for p in 0..6 {
        assert_eq!(&fb[p * 4..p * 4 + 4], &[0xFF, 0x99, 0x33, 0x00]);
    }
    assert_eq!(&fb[24..28], &[1, 1, 1, 1]);
}

#[test]
fn panels_paint_top_and_bottom_rows_only() {
    let (w, h) = (3usize, 5usize);
    let mut fb = vec![9u8; w * h * 4];
    draw_panels_to_framebuffer(&mut fb, w, h, 1, 2, (1, 2, 3), (4, 5, 6));
    for x in 0..w {
        assert_eq!(pixel(&fb, w, x, 0), [3, 2, 1, 0]);
        assert_eq!(pixel(&fb, w, x, 1), [9, 9, 9, 9]);
        assert_eq!(pixel(&fb, w, x, 2), [9, 9, 9, 9]);
        assert_eq!(pixel(&fb, w, x, 3), [6, 5, 4, 0]);
        assert_eq!(pixel(&fb, w, x, 4), [6, 5, 4, 0]);
    }
}

#[test]
fn bottom_panel_covers_top_panel_where_they_overlap() {
    let (w, h) = (2usize, 3usize);
    let mut fb = vec![0u8; w * h * 4];
    draw_panels_to_framebuffer(&mut fb, w, h, 2, 2, (1, 1, 1), (2, 2, 2));
    assert_eq!(pixel(&fb, w, 0, 0), [1, 1, 1, 0]);
    assert_eq!(pixel(&fb, w, 1, 1), [2, 2, 2, 0]);
    assert_eq!(pixel(&fb, w, 1, 2), [2, 2, 2, 0]);
}

#[test]
fn panels_with_zero_heights_change_nothing() {
    let mut fb = vec![5u8; 32];
    draw_panels_to_framebuffer(&mut fb, 2, 4, 0, 0, (1, 1, 1), (2, 2, 2));
    assert_eq!(fb, vec![5u8; 32]);
}

#[test]
fn raw_wallpaper_copies_bytes_and_clips() {
    let (w, h) = (3usize, 3usize);
    let mut fb = vec![0u8; w * h * 4];
    let image: Vec<u8> = (1..=16).collect();
    vantara::wallpaper::draw_wallpaper_to_framebuffer(&mut fb, w, h, &image, 2, 2, 2, 1);
    assert_eq!(pixel(&fb, w, 2, 1), [1, 2, 3, 4]);
    assert_eq!(pixel(&fb, w, 2, 2), [9, 10, 11, 12]);
    assert_eq!(pixel(&fb, w, 1, 1), [0, 0, 0, 0]);
    assert_eq!(pixel(&fb, w, 0, 0), [0, 0, 0, 0]);
}

#[test]
fn copy_rect_with_conversion_swaps_channels() {
    let mut fb = vec![0u8; 8];
    let src = vec![10u8, 20, 30, 40, 50, 60, 70, 80];
    copy_rect(&mut fb, &src, 2, 1, 0, 0, 2, 1, 2, 0, 0, PixelConversion::RgbaToXrgb);
    assert_eq!(fb, vec![30, 20, 10, 0, 70, 60, 50, 0]);
}

#[test]
fn plan_centres_the_scaled_image() {
    assert_eq!(
        plan_wallpaper(WallpaperMode::Fit, 100, 50, 200, 200, (50, 50)),
        Ok(Placement { width: 50, height: 50, offset_x: 25, offset_y: 0 })
    );
    assert_eq!(
        plan_wallpaper(WallpaperMode::Fill, 100, 50, 200, 100, (100, 50)),
        Ok(Placement { width: 100, height: 50, offset_x: 0, offset_y: 0 })
    );
    assert_eq!(
        plan_wallpaper(WallpaperMode::Fill, 100, 50, 10, 10, (120, 120)),
        Ok(Placement { width: 120, height: 120, offset_x: 0, offset_y: 0 })
    );
}

#[test]
fn plan_stretch_and_center() {
    assert_eq!(
        plan_wallpaper(WallpaperMode::Stretch, 640, 480, 10, 20, (0, 0)),
        Ok(Placement { width: 640, height: 480, offset_x: 0, offset_y: 0 })
    );
    assert_eq!(
        plan_wallpaper(WallpaperMode::Center, 640, 480, 41, 80, (0, 0)),
        Ok(Placement { width: 41, height: 80, offset_x: 299, offset_y: 200 })
    );
}

#[test]
fn plan_rejects_empty_scaled_size() {
    assert_eq!(
        plan_wallpaper(WallpaperMode::Fit, 100, 50, 10, 10, (0, 5)),
        Err(WallpaperError::TooSmallAfterScaling)
    );
    assert_eq!(
        plan_wallpaper(WallpaperMode::Fill, 100, 50, 10, 10, (5, 0)),
        Err(WallpaperError::TooSmallAfterScaling)
    );
}

#[test]
fn too_small_wallpaper_leaves_framebuffer_alone() {
    let mut fb = vec![3u8; 16];
    let image = RgbaImage { width: 1, height: 1, data: vec![1, 2, 3, 4] };
    let result = draw_wallpaper_to_framebuffer(&mut fb, 2, 2, &image, WallpaperMode::Fit, (0, 0));
    assert_eq!(result, Err(WallpaperError::TooSmallAfterScaling));
    assert_eq!(fb, vec![3u8; 16]);
}

#[test]
fn centred_wallpaper_is_converted_to_xrgb() {
    let mut fb = vec![0xAAu8; 3 * 3 * 4];
    let image = RgbaImage { width: 1, height: 1, data: vec![200, 100, 50, 7] };
    let result = draw_wallpaper_to_framebuffer(&mut fb, 3, 3, &image, WallpaperMode::Center, (0, 0));
    assert_eq!(result, Ok(()));
    assert_eq!(pixel(&fb, 3, 1, 1), [50, 100, 200, 0]);
    assert_eq!(pixel(&fb, 3, 0, 0), [0xAA, 0xAA, 0xAA, 0xAA]);
    assert_eq!(pixel(&fb, 3, 2, 2), [0xAA, 0xAA, 0xAA, 0xAA]);
}

#[test]
fn stretched_wallpaper_is_resampled_to_the_screen() {
    let mut fb = vec![0u8; 2 * 2 * 4];
    let image = RgbaImage { width: 1, height: 1, data: vec![255, 0, 0, 255] };
    let result = draw_wallpaper_to_framebuffer(&mut fb, 2, 2, &image, WallpaperMode::Stretch, (0, 0));
    assert_eq!(result, Ok(()));
    for p in 0..4 {
        assert_eq!(&fb[p * 4..p * 4 + 4], &[0, 0, 255, 0]);
    }
}

#[test]
fn filled_wallpaper_covers_the_screen() {
    let mut fb = vec![0u8; 4 * 2 * 4];
    let data: Vec<u8> = [[0u8, 255, 0, 255]; 4].concat();
    let image = RgbaImage { width: 2, height: 2, data };
    let result = draw_wallpaper_to_framebuffer(&mut fb, 4, 2, &image, WallpaperMode::Fill, (4, 4));
    assert_eq!(result, Ok(()));
    for p in 0..8 {
        assert_eq!(&fb[p * 4..p * 4 + 4], &[0, 255, 0, 0]);
    }
}

#[test]
fn placed_wallpaper_is_clipped_at_the_screen_edge() {
    let mut fb = vec![1u8; 2 * 2 * 4];
    let pixels: Vec<u8> = vec![10, 11, 12, 13, 20, 21, 22, 23, 30, 31, 32, 33, 40, 41, 42, 43];
    let placement = Placement { width: 2, height: 2, offset_x: 1, offset_y: 1 };
    vantara::graphics::wallpaper::draw_placed_wallpaper(&mut fb, 2, 2, &pixels, placement);
    assert_eq!(pixel(&fb, 2, 1, 1), [12, 11, 10, 0]);
    assert_eq!(pixel(&fb, 2, 0, 0), [1, 1, 1, 1]);
    assert_eq!(pixel(&fb, 2, 1, 0), [1, 1, 1, 1]);
    assert_eq!(pixel(&fb, 2, 0, 1), [1, 1, 1, 1]);
}

#[test]
fn centred_wallpaper_gaps_differ_by_at_most_one() {
    let p = plan_wallpaper(WallpaperMode::Center, 101, 50, 40, 50, (0, 0)).unwrap();
    let left = p.offset_x;
    let right = 101 - (p.offset_x + p.width as usize);
    assert_eq!((left, right), (30, 31));
    assert_eq!(p.offset_y, 0);
}

#[test]
fn drawability_check_matches_the_framebuffer_size() {
    let image = RgbaImage { width: 2, height: 2, data: vec![0; 16] };
    assert!(can_draw_wallpaper(16, 2, 2, &image, WallpaperMode::Center, (0, 0)));
    assert!(!can_draw_wallpaper(15, 2, 2, &image, WallpaperMode::Center, (0, 0)));
    let broken = RgbaImage { width: 2, height: 2, data: vec![0; 15] };
    assert!(!can_draw_wallpaper(16, 2, 2, &broken, WallpaperMode::Center, (0, 0)));
    assert!(can_draw_wallpaper(0, 2, 2, &image, WallpaperMode::Fit, (0, 3)));
}

#[test]
fn wallpaper_alpha_does_not_matter() {
    let first = RgbaImage { width: 2, height: 1, data: vec![1, 2, 3, 0, 4, 5, 6, 255] };
    let second = RgbaImage { width: 2, height: 1, data: vec![1, 2, 3, 77, 4, 5, 6, 9] };
    let mut a = vec![0xEEu8; 2 * 2 * 4];
    let mut b = a.clone();
    draw_wallpaper_to_framebuffer(&mut a, 2, 2, &first, WallpaperMode::Center, (0, 0)).unwrap();
    draw_wallpaper_to_framebuffer(&mut b, 2, 2, &second, WallpaperMode::Center, (0, 0)).unwrap();
    assert_eq!(a, b);
    assert_eq!(&a[0..8], &[3, 2, 1, 0, 6, 5, 4, 0]);
}
