# wayland-display-core

Renderers for a headless Wayland display: an OpenGL ES renderer on EGL and a
Vulkan renderer.

- `src/` decides and computes, and is verified with Verus. It performs no call into
  EGL, Vulkan or the compositor library. A setup (`RendererSetup`, `EglSetup`,
  `DeviceSearch`, `ShaderBuild`) says which call comes next with `action`, takes the
  reply with `advance`, and ends with a renderer or an error.
- `src/platform.rs` and `src/egl_platform.rs` state what a setup ends with on any
  machine, which device it picks, what it creates and in which order that is released,
  and what it does to the displays that renderers share.
- `app/` makes the calls, and gives the renderer the traits of the compositor library.
- `tests/` runs the library on machines with fixed replies.

Taken on trust are a few functions of `ash`: the packing of version numbers and
the reading of their parts, the containment of queue flags, and the debug texts of
result codes and device handles. Each stands behind an item whose doc comment says
what is claimed of it.
