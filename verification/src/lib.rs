//! The rules of a small volume renderer, verified.
//!
//! The renderer fills a three-dimensional texture in a compute pass and draws
//! a full-screen quad that samples it. This library holds everything about
//! it that is a decision or a number: the quad's geometry and how it lies in
//! memory, the resources to allocate, what each frame records, how a resize
//! is taken, and how the event loop answers events and failed frames. It
//! performs no I/O: the caller owns the window and the device and carries
//! out what the library hands back.
//!
//! Numbers that the GPU reads as floating point are held as their IEEE 754
//! bit patterns.

pub mod bytes;
pub mod driver;
pub mod event;
pub mod frame;
pub mod geometry;
pub mod layout;
pub mod pipeline;
pub mod resources;
pub mod state;
pub mod surface;
pub mod vertex;
