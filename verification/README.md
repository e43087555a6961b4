# mocosmos

A small 2D space shooter. The rules of the game are a Verus-verified
library (`src/`); the window, input, physics simulation and ECS schedule are
an ordinary Rust program (`app/`) built on macroquad, rapier2d, bevy_ecs and
rusqlite.

- `src/action.rs`: the set of actions a player can request in a frame.
- `src/control.rs`: key state to requested actions.
- `src/pilot.rs`: how requested actions change the ship, and the commands
  they hand to physics and window; laws on speed, weapon and fullscreen.
- `src/shooting.rs`: when a weapon fires and where its bullets leave.
- `src/space.rs`: collision groups and the body-to-entity link.
- `src/animation.rs`: spark animations.
- `src/world.rs`: the starting world.
