# rpg_ui

The user-interface logic of a terminal role-playing game, verified with Verus.

`src/` holds the logic of the screens and panels, each function with a
contract proved by Verus:

- `command`, `selection`, `menu_component`: key and command inputs, list
  highlights that wrap around, simple menus.
- `alchemist`, `blacksmith`, `field`, `store`, `dungeon`, `fight`, `mine`,
  `magic`: the state machines of each screen and tab: what a key or command
  does, which view follows, what the game is asked to do, and the messages
  shown.
- `toast`: the notification queue (newest first, at most five) and where
  toasts go on screen.
- `text`, `labels`, `item_details`: word wrapping, truncation, decimal
  numbers and the labels built from them.
- `layout`, `spans`, `parchment`, `inventory_view`, `inventory_modal`,
  `table`, `animation`: geometry, styled runs of characters, textures and
  borders, list contents, table column widths and animation frames.

Laws that hold across calls (moving a highlight up then down returns to it,
word wrapping keeps every word in order, runs of styled characters read back
to the line, and others) are public proof functions next to the code they
speak of.

`tests/` runs the library on concrete values. `app/` is the ratatui and
tuirealm glue: it converts the terminal crates' keys, commands, list states
and rectangles to the library's types and draws what the library computes.
