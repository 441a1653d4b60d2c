# lemo_gui

The decision-making core of a small GUI toolkit with winit, SDL2 and OpenGL
backends, written in Verus and proved against its contracts.

- `src/` is the verified library: backend-independent events, the winit and
  SDL2 key tables and event dispatch, the rich-text editor's state machine
  and bounded undo/redo history, the pipeline registry, vertex layouts,
  index lists and texture layouts, and the small demo states.
- `tests/` runs the library on concrete values.
- `app/` is ordinary Rust around it: the event loops, OpenGL calls, icon and
  font loading, file access of the editor, and the floating-point geometry.
