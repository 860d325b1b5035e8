# cinder

The decision-making core of a small Vulkan renderer, written in Verus and proved
against its contracts.

- `src/` is the verified library: image layout transitions and their barriers,
  bind group layouts and descriptor writes, pipeline layouts merged from shader
  reflection, physical device and surface choices, the swapchain's image cycle,
  resource pools and deferred destruction, the render graph (its dependency order
  and per-pass frame plan), keyboard and mouse state, UI mesh placement and the
  index lists of procedural meshes, and the draw offsets of meshes sharing buffers.
- `tests/` runs the library on concrete values.
- `app/` is ordinary Rust around it: it reads what Vulkan, SDL and JSON files report
  into the library's values and carries out what the library decides.
