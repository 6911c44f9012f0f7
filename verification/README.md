# lumina_core

The logic of a context-aware particle overlay engine for looping lofi videos,
written in Verus and verified against its contracts.

- `src/config.rs`: render settings and their clamping (`RenderConfig::validate`,
  `render_settings`),
  particle presets and rain types with their shader indices and case-insensitive
  names, and hex colour parsing (`hex_to_rgba8`).
- `src/analysis.rs`: the luminance (ITU-R BT.601) mask of a background image,
  clamped mask and background lookups, and texture preparation.
- `src/export.rs`: the FFmpeg command line, frame sizes and checks, progress
  tracking and the step function that drives the encoding loop.
- `src/dispatch.rs`: compute workgroups that cover every particle.
- `src/text.rs`: exact string comparison, decimal formatting, lowercasing.
- `src/imaging.rs`: the trusted contracts of the `image` crate calls.

`app/` is the program around the library: argument handling, reading the
intent JSON with serde, decoding images, the wgpu renderer with its WGSL
shaders, and the FFmpeg process. The floating-point parts (shader
parameters, the warm mask, UV sampling) live there too.
