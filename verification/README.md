# multi_logging

A logging library whose logic is verified with Verus: pattern-string parsing and rendering,
ANSI colour sequences, level filtering, the registry of named loggers and sinks, the pool of
string buffers, and the work that loggers do on each record and command.

- `src/` is the verified library.
  - `util/`: errors, levels, records, the name registry, the buffer pool, the dispatcher
    functions, and text helpers.
  - `fmt/`: ANSI sequences, pattern parsing (with its laws), the calendar fields of a time
    stamp, and the plain and colouring formatters.
  - `sink/`: the `Sink` trait and the null sink.
  - `logger/`: the sink list, the synchronous logger and the asynchronous logger's builder and
    background state.
- `app/` runs it: the global dispatcher, file and terminal sinks, logger threads and channels,
  the machine's UTC offset, and the `log` crate bridge.
- `tests/` holds the tests.
