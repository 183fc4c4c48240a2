# wmrust

The game logic of WhoreMaster Renewal as a verified library, with a thin
command-line program around it.

- `src/` — the library, verified with Verus: girls and their stats, items and
  the inventory, the dungeon and torture, fights, rivals, customers, the jobs,
  the weekly turn rules, the player's standing, the configuration readers, the
  trait and screen data conversions, the script converter (binary `.script` to
  Lua) and the data editor's list operations. Each public function states what
  it does in its contract; the public `law_*` proof functions state the
  properties that hold across calls.
- `tests/` — tests of the library on concrete values.
- `app/` — the program: reading and writing the data files (XML and text),
  the money ledger and the other parts reckoned in floating point, the weekly
  turn driver, the Lua host, and the editor's user interface.

Functions that draw random numbers come in two forms: one that takes the draws
as arguments and whose contract gives the exact outcome, and one that takes
them from `rand`'s thread-local generator and promises the outcome of some
draws in range.
