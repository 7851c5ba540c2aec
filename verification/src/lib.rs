//! Frame planning and GPU-resource bookkeeping for an immediate-mode 2D
//! user-interface painter on OpenGL.
//!
//! The host owns the graphics context. This crate decides which calls are made
//! on it, with which arguments and in which order, and keeps track of the
//! objects that live on it. Every operation returns its calls as a list of
//! [`command::Command`] values for the host to issue in order.

pub mod command;
pub mod error;
pub mod frame;
pub mod gl;
pub mod handles;
pub mod laws;
pub mod paint;
pub mod painter;
pub mod primitive;
pub mod readback;
pub mod scissor;
pub mod setup;
pub mod shader_version;
pub mod table;
pub mod texture;
