# luhlog

A small logging library written in Verus.

- `src/` is the verified library: levels, records and their metadata,
  timestamps (taken and formatted through chrono), the default, compact and
  JSON formatters, the state and decisions of a logger (which records it
  keeps, which line it hands out and where that line goes), and a slot for a
  shared logger that falls back to a default one.
- `app/` is the thread-safe shell around it: a logger that prints its lines
  and appends them to a file, the process-wide logger, and the logging macros.
- `tests/` runs the library on concrete values.
