//! Drawing the desktop: the wallpaper and the top and bottom panels.

pub mod panel;
pub mod wallpaper;

pub use panel::draw_panels_to_framebuffer;
pub use wallpaper::{draw_wallpaper_to_framebuffer, WallpaperError, WallpaperMode};
