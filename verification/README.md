# director-narrative-core

Turns live or recorded race telemetry into narrative events (battles, overtakes,
flags, incidents, laps) and wraps those events for delivery to Race Control.

The gap to a rival swings with every braking zone. The engine therefore reads it at
fixed places of the track and fits a line over successive laps at each of them: what
stretches or shrinks every gap at a place alike cancels out, and the closing rate is
left.

## Layout

- `src/` — the verified library. Every function carries its contract; the laws that
  relate several functions are public proof functions beside them.
  - Telemetry and numbers: `telemetry_frame`, `fixed`, `rank`, `text`.
  - Closing rates: `anchor_sampler`, `regression_store`, `battle_state`, `pressure`,
    `gap_finder`, `lap_timer`.
  - What happens in a race: `engagement`, `session_watch`, `lap_book`,
    `micro_sector`, `basic_incident`, `car_registry`, and `engine`, which runs them;
    `material` reports on the driver where nothing happens.
  - Ways to drive the engine: `replay`, `live_session`, `js_event`, `pipeline`.
  - Publishing: `race_event`, `payload`, `identity`, `publisher_event`, `utc`, `json`,
    `lifecycle`, `transport`, `config`, `session_info`.
  - What holds over a whole run: `tally`, `course`.
  - Around it: `publisher_status`, `status_view`, `publisher_log`, `irsdk`,
    `irsdk_header`.
  - Outside crates enter through `yaml`, `toml_doc` and a few items of
    `publisher_event` and `text`, each with the contract it is trusted for.
- `tests/` — scenarios, edge cases and exact values.
- `app/` — the command line, files, network, shared memory and the status window.

## Numbers

Times, places, speeds and rates are counted in millionths (`fixed::Micro`), so that
all arithmetic is exact. `app/` converts from and to floating point.
