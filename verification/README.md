# iso_minimap

A minimap for the ClassiCube game client, drawn into the isometric view.

- `src/` is the verified library (Verus):
  - `plugin/bmp.rs`: composes the 128 x 128 minimap image from a terrain
    sample, the block face texture table and the terrain atlas; its contract
    gives every byte of the image, and when the lookups leave the tables.
  - `plugin/atlas.rs`: addressing of tiles in the 2D terrain atlas.
  - `plugin/render_hooks.rs`: the state machine behind the render hooks that
    find the isometric view transform and draw the minimap once per frame.
  - `plugin/mod.rs`: the screen and texture the plugin holds while loaded.
  - `context_handler.rs`: the shared vertex buffer across graphics context
    loss.
  - `logger.rs`: the logger configuration, set up once per process.
- `app/` is the glue to the game (`classicube-sys`, `classicube-helpers`):
  detours, GUI screen, graphics calls, floating-point positions, and the
  terminal logger (`simplelog`).
- `tests/` exercises the library on concrete values.
