# sus_check

The verified core of a desktop overlay that summarises a player's public
Steam profile and optional BattleMetrics session data for manual review.

- `src/` is the Verus library: SteamID normalisation (`steam_id`), text
  helpers (`text`), Steam records (`steam`), the lookup summary (`lookup`,
  `context`), the weighted decision tree (`decision`), the BattleMetrics
  configuration and player lookup (`battlemetrics`), the dated
  session-history scan (`session_history`, `timestamp`), the overlay's
  presence state (`overlay`), the wall clock (`clock`), and natural
  numbers of any size (`wide`) for the exact sum of post-ban shares.
- `app/` is the Tauri shell: commands, windows, HTTP calls, JSON and
  session logging. It drives the library and converts hours, which the
  library keeps in whole tenths of an hour, to the `f32` hours the UI shows.
- `tests/` exercises the library on concrete values.
