# sandlot

Verified building blocks of an SDL3 binding, written in Verus.

- `src/` is the verified library: colors and their hex forms, points and
  rectangles with their text forms, the SDL enumerations of the binding
  (pixels, GPU, logging, message boxes, files, displays, event types) with
  their numeric codes (and the proof that codes and values determine each
  other), flag sets, GPU resource, pipeline, render pass and blit descriptions, an owned
  `Box` with an owning slice iterator, and the `Error` value. Descriptions
  that carry floating-point values (clear colors, depth ranges, sampler
  levels of detail) are generic over the type that holds them.
- `app/` holds the calls into the SDL3 C library (through `sdl3-sys`) and
  the conversions between SDL's C types and the library's types: GPU
  devices, resources, command buffers and passes, audio devices and
  streams, property groups, the event queue, and what works on
  floating-point values. It is ordinary Rust and
  is not verified.
- `tests/` exercises the library on concrete values.
