//! The decision logic of a live shader playground: a text editor whose
//! fragment shader is recompiled once typing has paused, a frame clock
//! that reports frames per second, the size of the render surface, and
//! the dispatch of window events. The GPU, the window and the widgets
//! stay outside this crate; they hand it plain values and act on what
//! it decides.

pub mod time;
pub mod frames;
pub mod editor;
pub mod surface;
pub mod events;
pub mod state;
