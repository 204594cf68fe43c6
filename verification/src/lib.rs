//! Core of a scrolling-screenshot stitcher: overlap detection between
//! consecutive captures, incremental compositing of the non-duplicated
//! remainder, and the capture-session state machine.
//!
//! The engine works on plain RGBA8 buffers.  Reading pixels from the screen,
//! toggling window visibility, the clipboard and the file system are left to
//! collaborators outside this crate; the only outside work done here is the
//! final PNG and base64 encoding of a finished composite.

pub mod compose;
pub mod detect;
pub mod display;
pub mod encode;
pub mod raster;
pub mod session;
