//! Frame acquisition, format checking and cross-thread hand-off for a live
//! camera view.
//!
//! A capture thread produces raw frames, the converter turns each frame into
//! a pixel buffer the display can render, and the bridge hands the newest
//! buffer to the user-interface thread, which shows it while the display
//! surface is still alive.

pub mod bridge;
pub mod converter;
pub mod format;
pub mod frame;
pub mod graph;
pub mod pixel_buffer;
pub mod surface;
