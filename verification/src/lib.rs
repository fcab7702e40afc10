//! Text output for small monochrome panels, streamed glyph by glyph into the
//! panel's own addressing window, with no framebuffer on the host.

pub mod displayrotation;
pub mod displaysize;
pub mod font;
pub mod mode;
pub mod window;
