# rebar

The logic of a small status bar for the GlazeWM tiling window manager, verified
with Verus.

- `src/fuzzydate.rs`: the fuzzy clock ("MON JAN 5, QUARTER past TWO").
- `src/text.rs`: trimming, decimal parsing and printing.
- `src/json.rs`: the JSON values the bar reads, parsed with serde_json.
- `src/ids.rs`: the map from the window manager's workspace identifiers to
  workspace numbers.
- `src/ipc.rs`: the window manager's messages, read into events for the bar.
- `src/state.rs`: the bar's state and how events change it.
- `src/rebar.rs`: the bar with its event channel and clock.
- `src/font.rs`: where to look for the configured font.
- `src/clock.rs`: chrono's local clock and std's `Instant`.

`app/main.rs` is the eframe program around the library: the window, the
drawing, the configuration, and the `glazewm` child processes.
