# sleepguard

The schedule logic of SleepGuard, verified with Verus.

- `src/` — the library: parsing and formatting `HH:MM` times, resolving a
  day's shutdown and activation times from the weekly configuration, the next
  shutdown, the boot guard's and monitor's decisions, and the commands and
  files that shutdown, autostart and guard registration use.
  `chrono` is called through the trusted items in `src/clock.rs`.
- `tests/` — tests on concrete values.
- `app/` — the `sleepguard-guard` binary and the I/O around the library:
  reading and writing `config.json`, spawning commands, writing the unit file.

The desktop application around the monitor (its window, notifications, lock
screen and commands) is built on Tauri, which is not available here, so
`app/` holds only the `sleepguard-guard` binary and the I/O helpers; the
monitor's decisions are `monitor::monitor_step` in the library.
