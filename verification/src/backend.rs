//! Graphics-backend bindings.
//!
//! The native library is built for exactly one graphics API at a time;
//! each backend contributes its own handle types and entry points. Only
//! the Vulkan backend is bound here.

pub mod vk;
