# pokemon_adventure

A turn-based Pokemon battle engine whose rules are verified with Verus.

- `src/` is the verified library: the type chart and species data (`schema`, `species`),
  moves and their effects (`moves`, `battle/move_effects`), Pokemon and players
  (`pokemon`, `player`), stat and damage formulas (`battle/stats`), the commands that change
  a battle and the events they report (`battle/commands`, `battle/state`), the calculators
  that turn an action into commands (`battle/calculators`), action ordering
  (`battle/action_stack`), turn resolution (`battle/engine`), the text of battle events (`battle/event_text`,
  `text`), the steps of a catch
  attempt (from an integer catch threshold), the progression checks and move learning, and
  the checks on submitted actions (`battle/catch`, `battle/progression`, `battle/runner`).
  Each public function states in its `ensures` what it returns, over spec functions; where
  the result goes through the random roll source, the contract says what holds of every roll.
  The properties that span functions are public proof functions beside the code they speak of.
- `app/` holds what is not verified: the scoring opponent and the catch rate and its threshold
  (floating point), the experience curves, the printing of battle text, and a runner that draws random
  rolls and resolves turns.
- `tests/` exercises the library on concrete battles.
