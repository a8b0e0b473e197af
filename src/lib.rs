//! Display pipeline of a C64 front end: the pixel sink the emulation core
//! writes into, the palette, the renderers' command sequences and the
//! decisions of the frame loop.

pub mod composite;
pub mod frame_loop;
pub mod palette;
pub mod renderer;
pub mod sound;
pub mod video;
