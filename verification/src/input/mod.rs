//! The mouse cursor: restoring the background under it, blending its image
//! into the framebuffer, following pointer motion, and recognising the mouse
//! among the input devices.

pub mod cursor;
pub mod pointer;
pub mod device;
