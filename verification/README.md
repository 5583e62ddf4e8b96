# spelldawn

The rules engine of Spelldawn, a two-player card game between the Overlord and the Champion,
written in Verus: each operation carries a contract, and Verus proves the code against it.

- `src/` is the verified library: the game model (`primitives`, `card_state`, `game`, with the
  updates sent to the clients and the events raised for the cards' delegates), mana
  accounting (`mana`), the changes that the rules make to a game (`mutations`), the checks on
  player actions (`flags`, `queries`, `actions`), the raid state machine (`raid`, `raid_phases`,
  `raid_actions`), display helpers (`display`: addresses, card icons, card views, prompt layout and rules text; `display2`, `protos`, `diff`, `text`), the reader
  of test run reports (`test_results`) and the properties that span operations (`laws`).
- `tests/` exercises the library on concrete games.
- `app/` holds what stays outside the verified library: the card callbacks (function pointers)
  that the rules invoke, floating-point display values, and the command that prints a test
  run's report.
