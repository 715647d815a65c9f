//! Renderer bring-up and bookkeeping for a headless Wayland display.
//!
//! The crate decides and computes; it performs no call into EGL or Vulkan itself.
//! A setup says which call comes next, is handed the reply, and goes on from there.
//!
//! - [`vulkan_setup`] brings up a Vulkan renderer, [`vulkan_renderer`] is its state,
//!   with textures and frames, and [`platform`] holds what a setup comes to.
//! - [`egl_setup`] brings up an OpenGL ES renderer, [`display_cache`] keeps the
//!   displays that renderers share, and [`egl_platform`] holds what a setup comes to.
//! - [`renderer`] is the entry to the Vulkan renderer.
//! - [`shaders`] orders the compilation of the shaders.
//! - [`vulkan_guarantees`], [`egl_guarantees`], [`renderer_guarantees`] and
//!   [`shader_guarantees`] state what a caller can rely on, as laws on what the
//!   operations return for what they are given.

pub mod display_cache;
pub mod egl_guarantees;
pub mod egl_platform;
pub mod egl_setup;
pub mod error;
pub mod extensions;
pub mod geometry;
pub mod platform;
pub mod renderer;
pub mod renderer_guarantees;
pub mod shader_guarantees;
pub mod shaders;
pub mod text;
pub mod version;
pub mod vulkan_guarantees;
pub mod vulkan_renderer;
pub mod vulkan_setup;
