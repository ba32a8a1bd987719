# close_to_light

The core of a rhythm game in which the player stays inside moving lights,
written in Verus and proved against its contracts.

- `src/` is the verified library: integer timing of light movements
  (`movement`), level editing operations (`level`), the undo/redo history
  (`history`), the level editor's actions (`level_editor`) and key bindings
  (`input`), editor and menu state machines (`editor`, `menu`, `game`),
  rhythm scoring (`score`), themes, modifiers and widget state. Laws that
  relate several operations (undo after redo, stop after start, swapping
  levels twice, ...) are public proof functions next to the operations.
- `tests/` runs the library on concrete values.
- `app/` is a small command-line program around the library: it reads and
  writes levels as JSON and holds the floating-point parts of the game
  (interpolation, health, accuracy), which the verifier does not cover.

Times are integers in milliseconds throughout the library.
