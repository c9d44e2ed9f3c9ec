//! The decisions of a small Vulkan convenience layer, proved: which GPU to
//! pick, which native call creates a surface for a window, which instance
//! extensions a windowing system needs and how their names are marshalled.
//!
//! Nothing here talks to a driver. Callers query the driver, describe what
//! they found in the plain types of this crate, and carry out what it decides.
pub mod ffi_util;
pub mod gpu;
pub mod instance;
pub mod surface;
pub mod window;
