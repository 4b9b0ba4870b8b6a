# pet2d

A lightweight 2D engine for desktop games and desktop pets, built on Winit
and WGPU with a Macroquad-style API. This crate is split in two:

- `src/` is the verified library (Verus): the decisions the engine takes.
  Window events become input state (`native`, `keycode`, `mouse`, `keyset`,
  `input`, `context`), frame waits resolve on the next presented frame
  (`frame`), assets are cached by path (`assets`), image files are decoded
  from their bytes in the format their extension names (`decode`), draws are
  batched per texture run (`batch`), spritesheet cells and animation frames
  are chosen (`spritesheet`), circle fans are indexed (`sprite`), the render
  surface is configured (`surface`) and pet windows are stacked (`window`).
  Every public function carries a contract, and the laws that span calls
  are proof functions beside them.
- `app/` is the engine around it: the Winit event loop, the WGPU renderer,
  reading files from disk, floating-point geometry (camera, sprite quads,
  timing) and the thread-local runtime behind the free functions
  (`is_key_down`, `next_frame`, `load_texture`, ...).

`tests/` exercises the library on concrete values.
