# puniyu_logger

A small logger whose decisions are proved with Verus.

* `src/` is the verified library:
  * `level` – verbosity levels, record severities (1..=24, TRACE to FATAL4),
    the rule that decides which records pass, and laws about that rule;
  * `filter` – the record filter that follows the `log` facade's limit;
  * `layout` – the line layout `[Prefix] [HH:MM:SS.mmm] [LEVEL  ] message`;
  * `color`, `text` – ANSI colouring, padding, case conversion, ANSI stripping;
  * `options`, `setup` – the logger's options and what starting it sets up;
  * `tracing_setup`, `tracing_format` – the same for the `tracing` flavour,
    including the reading of level names and the options a C caller passes.
* `app/` registers the verified pieces with logforth and `tracing`, starts the
  logger once, and exports the C interface.
* `tests/` runs the library on concrete values.
