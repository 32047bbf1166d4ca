//! Verified core of a small rendering toolkit: the shader build pipeline,
//! uniform writes, texture pixels and the input policy of a fly camera.
//!
//! The graphics driver and the window system are spoken to by the caller.
//! This crate decides what is asked of them and what their answers mean.

pub mod build_laws;
pub mod input;
pub mod shader;
pub mod texture;
pub mod uniform;
