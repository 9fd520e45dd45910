# atlas_screens

The decisions behind the screens of Atlas, a household-finance planner,
as a library verified with Verus: which rows a viewer may see, how each
register filters and orders them, which state a screen is in after a click,
and the sentences the screens state. Every function works on plain values
(money in minor units or as already-formatted text, dates as day numbers
counted from 1 January of the year 1), so the engine that computes the
figures and the toolkit that draws them stay outside it.

Layout:

- `src/access.rs` — disclosure levels and how objects are named to a viewer.
- `src/text.rs` — decimal and percentage text, joined lists, searching text,
  and the calendar dates written by `chrono`.
- `src/order.rs` — the text order and the stable sorts the registers use.
- one module per screen family: `accounts`, `activity`, `assumptions`,
  `decisions`, `earmarks`, `entities`, `extraction`, `forecast`, `funding`,
  `household`, `liquidity`, `navigation`, `privacy`, `projections`, `rules`,
  `scenarios`, `settings`, `sharing`, `taxes`, `timeline`, `today`.
- `tests/` — concrete cases for every module, run against the compiled
  library.
- `app/` — the unverified rest: the chart series in floating point that the
  drawing toolkit takes.
