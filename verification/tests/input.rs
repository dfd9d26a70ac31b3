use vantara::input::cursor::can_restore_cursor_area;
use vantara::input::pointer::can_apply_pointer_event;
use vantara::input::cursor::{blend_cursor, restore_cursor_area, CURSOR_SIZE};
use vantara::input::device::{contains_run, is_event_node, is_mouse_name};
use vantara::input::pointer::{
    apply_pointer_event, centred_position, CursorPosition, EV_REL, REL_X, REL_Y,
};
use vantara::raster::RgbaImage;

const EV_KEY: u16 = 0x01;

#[test]
fn restore_copies_the_visible_square_back() {
    let (w, h) = (30usize, 25usize);
    let cache: Vec<u8> = (0..w * h * 4).map(|i| (i % 251) as u8).collect();
    let mut fb = vec![0u8; w * h * 4];
    restore_cursor_area(&mut fb, &cache, w, h, 20, 10);
    for y in 0..h {
        for x in 0..w {
            let o = (y * w + x) * 4;
            let inside = x >= 20 && x < 20 + CURSOR_SIZE && y >= 10 && y < 10 + CURSOR_SIZE;
            if inside {
                assert_eq!(&fb[o..o + 4], &cache[o..o + 4]);
            } else {
                assert_eq!(&fb[o..o + 4], &[0, 0, 0, 0]);
            }
        }
    }
}

#[test]
fn restore_off_screen_changes_nothing() {
    let cache = vec![9u8; 4 * 4 * 4];
    let mut fb = vec![1u8; 4 * 4 * 4];
    restore_cursor_area(&mut fb, &cache, 4, 4, 4, 0);
    assert_eq!(fb, vec![1u8; 4 * 4 * 4]);
}

fn over(dst: u8, src: u8, alpha: u8) -> u8 {
    ((src as u32 * alpha as u32 + dst as u32 * (255 - alpha as u32)) / 255) as u8
}

#[test]
fn blend_cursor_touches_only_colour_bytes_of_visible_pixels() {
    let (w, h) = (4usize, 3usize);
    let mut fb = vec![100u8; w * h * 4];
    let cursor = RgbaImage {
        width: 2,
        height: 2,
        data: vec![10, 20, 30, 255, 40, 50, 60, 0, 70, 80, 90, 255, 1, 2, 3, 255],
    };
    blend_cursor(&mut fb, w, h, 3, 2, &cursor, over);
    let o = (2 * w + 3) * 4;
    assert_eq!(&fb[o..o + 4], &[10, 20, 30, 100]);
    for p in 0..w * h {
        if p != 2 * w + 3 {
            assert_eq!(&fb[p * 4..p * 4 + 4], &[100, 100, 100, 100]);
        }
    }
}

#[test]
fn blend_cursor_with_transparent_pixel_keeps_background() {
    let mut fb = vec![77u8; 4];
    let cursor = RgbaImage { width: 1, height: 1, data: vec![1, 2, 3, 0] };
    blend_cursor(&mut fb, 1, 1, 0, 0, &cursor, over);
    assert_eq!(fb, vec![77u8; 4]);
}

#[test]
fn erasing_after_drawing_restores_the_background() {
    let (w, h) = (40usize, 30usize);
    let background: Vec<u8> = (0..w * h * 4).map(|i| (i * 7 % 256) as u8).collect();
    let mut fb = background.clone();
    let data: Vec<u8> = (0..CURSOR_SIZE * CURSOR_SIZE * 4).map(|i| (i % 256) as u8).collect();
    let cursor = RgbaImage { width: CURSOR_SIZE as u32, height: CURSOR_SIZE as u32, data };
    blend_cursor(&mut fb, w, h, 30, 15, &cursor, over);
    assert_ne!(fb, background);
    restore_cursor_area(&mut fb, &background, w, h, 30, 15);
    assert_eq!(fb, background);
}

#[test]
fn relative_motion_moves_the_cursor() {
    let start = CursorPosition { x: 10, y: 10 };
    assert_eq!(apply_pointer_event(start, EV_REL, REL_X, 5, 100, 50), CursorPosition { x: 15, y: 10 });
    assert_eq!(apply_pointer_event(start, EV_REL, REL_Y, -3, 100, 50), CursorPosition { x: 10, y: 7 });
}

#[test]
fn cursor_is_clamped_to_the_screen() {
    let start = CursorPosition { x: 10, y: 10 };
    assert_eq!(apply_pointer_event(start, EV_REL, REL_X, 500, 100, 50), CursorPosition { x: 99, y: 10 });
    assert_eq!(apply_pointer_event(start, EV_REL, REL_Y, -500, 100, 50), CursorPosition { x: 10, y: 0 });
}

#[test]
fn other_events_leave_the_cursor_in_place() {
    let start = CursorPosition { x: 10, y: 10 };
    assert_eq!(apply_pointer_event(start, EV_KEY, REL_X, 5, 100, 50), start);
    assert_eq!(apply_pointer_event(start, EV_REL, 0x08, 5, 100, 50), start);
}

#[test]
fn cursor_starts_in_the_middle() {
    assert_eq!(centred_position(1920, 1080), CursorPosition { x: 960, y: 540 });
}

#[test]
fn event_nodes_are_recognised_by_path() {
    assert!(is_event_node("/dev/input/event3"));
    assert!(!is_event_node("/dev/input/mouse0"));
    assert!(!is_event_node("/dev/input/even"));
}

#[test]
fn mouse_names_are_matched_without_case() {
    assert!(is_mouse_name(Some("Logitech USB Optical Mouse")));
    assert!(is_mouse_name(Some("MOUSE")));
    assert!(!is_mouse_name(Some("AT Translated Set 2 keyboard")));
    assert!(!is_mouse_name(None));
}

#[test]
fn contains_run_finds_runs() {
    assert!(contains_run(b"abcde", b"cd"));
    assert!(contains_run(b"abc", b""));
    assert!(!contains_run(b"abc", b"abcd"));
    assert!(!contains_run(b"abcde", b"ce"));
}

#[test]
fn restore_check_rejects_short_buffers() {
    let len = 30 * 30 * 4;
    assert!(can_restore_cursor_area(len, len, 30, 30, 29, 29));
    assert!(!can_restore_cursor_area(len - 1, len, 30, 30, 29, 29));
    assert!(!can_restore_cursor_area(len, len, 30, 30, usize::MAX - 5, 0));
}

#[test]
fn pointer_event_check_detects_overflow() {
    let pos = CursorPosition { x: 10, y: 10 };
    assert!(can_apply_pointer_event(pos, EV_REL, REL_X, 5, 100, 50));
    assert!(!can_apply_pointer_event(pos, EV_REL, REL_X, i32::MAX, 100, 50));
    assert!(!can_apply_pointer_event(pos, EV_REL, REL_X, 5, 0, 50));
    assert!(can_apply_pointer_event(pos, EV_KEY, REL_X, i32::MAX, 100, 50));
}
