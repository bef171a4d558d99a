//! The rules of a small render loop: a window, a surface, one textured
//! polygon.
//!
//! The crate decides and describes; it does not touch a window or a GPU.
//! [`surface`] chooses how a surface is configured, [`mesh`] holds the
//! polygon and the layout of its buffers, [`state`] keeps the loop's state
//! and says what every event means, and [`event`] is the vocabulary they
//! share with the driver that owns the window and the GPU.

pub mod event;
pub mod mesh;
pub mod state;
pub mod surface;
