//! Drawing into XRGB8888 framebuffers: background fills, panels, wallpapers
//! and the mouse cursor, plus the choices made while setting up a display.

pub mod pixel;
pub mod input;
pub mod wallpaper;
pub mod raster;
pub mod graphics;
pub mod display;
