# heph_gl

HephGL is a small graphics library on top of Vulkan. This crate holds its
logic as a Verus library: the functions in `src/` carry `requires` /
`ensures` contracts that Verus proves (the impls of std's `From` and
`PartialEq` take theirs from the specifications that vstd gives those traits,
through `FromSpecImpl` and `PartialEqSpecImpl`), and the laws of the library
stand there as public proof functions. A few calls that cannot be proved are
trusted, each with a contract stated beside it.

## Layout

- `src/lib.rs`: versions of the engine.
- `src/graphics_device.rs`: device types, vendors, features and the feature
  set, and the text that describes a device.
- `src/shader.rs`: SPIR-V detection and the metadata read from a parsed
  module (entry point, stage, workgroup size, bindings).
- `src/renderers/`: errors, settings, resource bindings, driver versions and
  the per-thread context slots (`thread_context.rs`).
- `src/renderers/vulkan/`: the decisions of the Vulkan renderer: API
  versions, queue planning, feature negotiation, device description, swapchain
  parameters, frame synchronization bookkeeping, frame rotation and resource
  checks.
- `src/text.rs`: decimal and hexadecimal text with exact specifications.
- `tests/`: tests of the library on concrete values.
- `app/`: the renderer itself, which makes the Vulkan, window and file calls
  and asks the library what to do; it also runs the SPIR-V parser, turning a
  parser panic on a malformed module into an error.
