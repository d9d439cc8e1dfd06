# king_of_fnaf

A player for Ultimate Custom Night that reads the game off screen captures and acts on it.

- `src/` is the verified library: screen geometry (`ivec2`, `irect`, `isqrt`), colors and
  reading digits and the night clock off a capture (`color`, `comp_vis`), the clock
  (`clk`), the log of everything seen and done (`history`), what the player knows and how
  it updates from a capture (`game_state`), the routines it plays as steps that return the
  inputs to send (`playbook`), what the status window shows (`dashboard`, `graph`), and the
  system input records and error kinds of the platform (`win`, `platform`, `input`).
- `app/` is the program around it: screen capture with `xcap`, the status window with
  `raylib`, the floating-point color comparisons, and the loop that sends each step's
  inputs and reads the screen again.
- `tests/` runs the library on concrete captures and states.
