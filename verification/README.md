# client

The game client of a multiplayer wave-survival game, split in two:

- `src/` — the library, verified with Verus: the client state machine and the
  rules it follows. Time is counted in microseconds (`Micros`); what is drawn
  (positions, colours) is a type parameter the library carries without reading.
  - `pool`, `trail`, `vfx`: the visual effects (slot pools, sword-trail ring
    buffers, slashes, hit flashes, dash ghosts) and their lifetimes.
  - `game_phase`, `shop_state`, `debug_state`, `ui_state`, `event`: the state
    of a game and how each server event changes it.
  - `shop_ui`: the commands the shop overlay answers an event with.
  - `lobby`, `main_menu`, `frame`, `input`, `input_state`, `in_game`: screens,
    keys, the frame loop's decisions, the input tick clock, snapshots and
    clicks on the shop cards.
  - `anim_key`, `animation`, `assoc`: animation names and keys, registered
    animations and the animation state of each entity.
  - `tile_map`, `shaders`: the texture atlas of the map and the shader each
    render pass uses.
  - `resources`, `debug_data`: keyed stores.
- `app/` — the program around it: the window and input events (winit), the
  connection to the server (renet), GPU rendering and the interface toolkit,
  and floating-point work (camera, particles, interpolation).
- `tests/` — tests of the library.
