//! Verified core of a GLX rendering-context manager.
//!
//! The library models the lifecycle of GPU rendering contexts on an
//! X11/GLX windowing platform: selecting a pixel-format configuration,
//! creating and adopting contexts, binding and unbinding drawing
//! surfaces, switching the thread's current context, and explicit
//! destruction.  All decisions are made here over plain handle values
//! and are machine-checked; the unsafe native calls themselves are
//! carried out by an unverified shell that executes the requests this
//! library hands back.

pub mod attributes;
pub mod binding;
pub mod config;
pub mod context;
pub mod current;
pub mod device;
pub mod error;
pub mod lifecycle;
pub mod surface;
