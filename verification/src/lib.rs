//! Frame scheduling, surface configuration and GPU buffer layout for a
//! Gaussian splatting renderer.
//!
//! The GPU work itself (surfaces, devices, queues, draws) is done by the
//! embedding application; this library decides when a frame has to be drawn,
//! how the surface and the stereo targets are laid out, and what goes into the
//! fixed-size GPU buffers.

pub mod buffer;
pub mod bytes;
pub mod render_state;
pub mod stereo;
pub mod surface;
