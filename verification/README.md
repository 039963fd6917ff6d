# vulkan_rs

A description layer for Vulkan, verified with Verus: the structures a renderer builds
before it talks to the driver (flags, formats, blend equations, barriers, descriptor
updates, device selection, instance/device/swapchain/buffer descriptions), with
contracts that state exactly what each computes.

- `src/` is the verified library. Vulkan objects are referred to by their raw handles
  (`u64`), and enumerations and flag masks by their raw Vulkan values (`i32` / `u32`).
- `app/` performs the driver calls with `ash` (loading Vulkan, creating the instance,
  devices, swapchains, submitting and updating descriptor sets), and holds copies of
  the flag enumerations that carry `serde` and `enumset` derives.
- `tests/` exercises the library, comparing its raw values with `ash`'s constants.
