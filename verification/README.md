# multimeter-engine

The engine of a hardware and software monitor. It keeps a model of the
machine (battery, processor, graphics processor, memory, fans, operating
system, running processes), answers queries for its values over a
line-based JSON protocol, and runs stress tests and helper programs.

## Layout

- `src/` — the library, verified with Verus. Every public function states
  what it returns in its contract; the laws that tie several functions
  together are public proof functions named `law_*`.
  - `monitor/` — the model and its queries, committing staged sensor
    readings, process listings, package manager detection, and the decisions
    of the Linux, Windows and made-up sensor readers.
  - `web/` — requests, responses and their execution.
  - `external_program/`, `external/` — launching programs, the
    LibreHardwareMonitor wrapper's wire protocol, and interactive programs.
  - `stress_test/` — the bookkeeping of a stress test session.
  - `util/` — values, text, decimal numbers and regular expressions.
- `tests/` — tests of the library on concrete values.
- `app/` — the program around the library: configuration file, TCP server,
  sensor access through sysinfo, starship-battery, lm-sensors and NVML,
  child processes and threads.
