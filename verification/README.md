# game_vk

The verified core of a Vulkan wrapper for a game engine, written in Verus.

- `src/` is the library. Every function in it is verified: the packed GPU
  pointers, the linear and first-fit memory allocators and pools, which memory
  type and block serve a request (the pool's search, type by type, through
  existing and new blocks), the choice of queue families, physical devices
  and swapchain parameters, the render pass builder, and the conversions of
  every enumeration and flag set to and from the raw Vulkan values.
- `app/` is the Vulkan side: it calls the driver through `ash`, hands what it
  learns to the library, and turns the library's answers into Vulkan structs.
  The pipeline states that hold floating-point values live there too.
- `tests/` runs the library, and checks its Vulkan numbers against `ash`.

The calls to std's and ash's formatting, to semver's version parser and to
ash's version packing are the only trusted code; each sits in a small wrapper
in `src/text.rs`, `src/extensions.rs` or `src/instance.rs` whose contract says
what it returns.
