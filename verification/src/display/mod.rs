//! Choosing the connector, encoder and CRTC that drive the screen, and
//! preparing the framebuffer the desktop is drawn into.

pub mod framebuffer;
pub mod setup;
pub mod utils;
