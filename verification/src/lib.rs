//! Host-side planning for a GPU finite-difference time-domain solver on a
//! three-dimensional Yee grid.
//!
//! The crate decides everything about a run that can be decided without a
//! device: how cells are laid out in memory, which buffers exist and how
//! large they are, how the two update kernels are wired to them, how many
//! workgroups a dispatch needs, and in which order the commands of a time
//! step are issued. A driver performs the device calls the plan asks for.

pub mod config;
pub mod dispatch;
pub mod engine;
pub mod grid;
pub mod layout;
pub mod source;
pub mod store;
pub mod wire;
