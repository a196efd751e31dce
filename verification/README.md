# ember

The core of the Ember game engine and editor, written in Verus: the scene life cycle
(inactive, staged, active), the scene managers, the world model with its resources and
entities (their component kinds, and the values of components whose fields are plain),
schedules of systems, scene serialization into and out of worlds, input handling, the
editor's start-up scene, geometry index data, and the renderer's decisions (device
selection, swapchain status, render pass and attachment layout).

- `src/` is the verified library. Its functions state what they do in `requires` and
  `ensures`; the laws that relate several functions are public proof functions beside them.
  Systems run through the `SystemExecutor` trait, whose `step` says what each system makes
  of a world.
- `tests/` exercises the library on concrete values.
- `app/` is the program around the library: command-line handling, logging, the fixed-step
  update loop, reading and writing scene files with `ron`, and the floating-point parts
  (vertices, transforms, camera, terrain noise, mouse motion).
