//! Driver logic for a chain of cascaded 8x8 LED-matrix modules, each run by a
//! MAX7219 chip: the pixel framebuffer, the register commands, the packing of
//! the framebuffer into per-row wire frames, and the decisions of a run of
//! transmissions. Sending the frames is left to the caller's transport.
pub mod driver;
pub mod laws;
pub mod protocol;
pub mod session;
