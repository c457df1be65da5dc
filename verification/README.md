# shader_playground

A live WGSL shader playground: a fragment shader is edited in a panel at the
bottom of the window and recompiled once typing pauses for 300 ms.

- `src/` is the verified decision logic: `time` (the clock, read from
  `std::time`), `frames` (frame counting and frame-rate sampling),
  `editor` (source, last error, last edit), `surface` (window and surface
  size, recovery from surface errors), `events` (what the event loop does
  with each event) and `state` (the state between frames and the debounced
  compile).
- `app/` is the program around it: wgpu, winit and egui, the shaders it
  starts with, and the event loop.
