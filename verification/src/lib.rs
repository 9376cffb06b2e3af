//! Resource lifecycle, frame layout and message dispatch for a single
//! Direct2D window, written as a machine that performs no I/O itself.

pub mod context;
pub mod frame;
pub mod geometry;
pub mod handle;
pub mod laws;
pub mod message;
pub mod model;
pub mod protocol;
pub mod window;
