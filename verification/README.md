# escape_adventure

The rules of a small side-scrolling runner, verified with Verus.

The player runs in one of three lanes, jumps to the lane above or below,
shoots enemies (samurai take three hits, ninjas one) and collects ammo
drops. `src/` holds the rules on plain integers, with their contracts and
proofs:

- `components` — the components entities carry and the three lanes.
  Heights are in quarter pixels, in which every height and speed of the
  game is a whole number.
- `player` — jumping (a state machine with a well-formedness invariant and
  a proof that every jump lands), firing and ammo pickup.
- `enemy`, `ammo_drop` — spawn decisions from dice rolls (`rand`).
- `combat` — bullets against enemies, enemies against the player, and
  removal of what scrolls off screen.

`app/` is the bevy program around the rules: rendering, input, float
positions, collision boxes, score and timing.
