# kindle_dash

The decision logic of a wall dashboard on a Kindle Voyage, verified with Verus. The device
fetches a PNG, shows it on the e-ink display, and suspends to RAM until the next scheduled
refresh.

## Layout

- `src/` is the library. It holds the rules and proves them: schedules (`schedule`), settings
  (`config`), the refresh cadence and the device's commands (`device`), the wait between two
  frames (`device::power`), retries (`fetch`), and the main loop (`dash`). It performs no I/O.
  Commands and file writes are plain values; the main loop and the wait are state machines that
  ask for an action and take in its outcome.
- `app/` is the program that performs what the library asks for. It depends on `time` because the
  time-format macro of `simplelog` expands to paths of that crate.
- `tests/` runs the library on concrete values.

## What is proved

Each function states what it returns for every input. Four functions read the clock themselves
(`next_refresh_at`, `schedule::validate`, `Config::from_toml`, `Config::validate`): of these it is
stated that the result is the right one as of some instant of the calendar. Each has a counterpart
that takes the instant as an argument and is exact. Proof functions named `law_*` state what holds
of the library as a whole, for instance:

- the device suspends only after the abort window, with an alarm set and a safe margin left;
- every wait ends, and an awake wait sleeps exactly as long as it was asked to;
- a single press refreshes, three exit, and a signal wins at every poll;
- the choice of screen and the length of the sleep come from one and the same instant;
- wherever slots fall on whole minutes, a planned refresh is the first slot that leaves room to
  sleep, and a later clock never plans an earlier one;
- settings are refused for the first bad entry of their document;
- counting presses takes at most six seconds;
- exactly the configured number of partial refreshes lies between two full ones;
- giving back the device undoes taking it over.

## What is trusted

Time zones (`chrono-tz`), cron expressions (`cron-parser`), TOML (`toml`), the clock (`chrono`)
and the case mapping of `str` are called, not proved. The contract of each stands beside the call.
