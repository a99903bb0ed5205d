//! A direct-display (kernel mode-setting) backend for an OpenGL context
//! library, verified against a model of the GPU device.
//!
//! When no windowing system is present, GL output is driven straight against
//! the display controller: each frame, the freshly rendered buffer is locked,
//! registered as a display framebuffer, installed on the configured display
//! pipeline, and the previously installed framebuffer is retired. This crate
//! holds the logic of that handoff protocol - the pixel-format table, the
//! resource checks at construction, and the present sequence with its
//! double-buffered retirement rule - as verified code over plain values.
//! The native device itself (a GPU node driven through ioctls) cannot be
//! verified, so the crate works against [`device::Device`], a model that
//! records every control call; an unverified front end performs the same
//! calls against the real device in the order the contracts here fix.

pub mod context;
pub mod device;
pub mod egl;
pub mod error;
pub mod format;
pub mod laws;
