//! The first framebuffer console, printing straight from the firmware framebuffer.
pub mod framebuffer;
