# wps

A small Deno extension library, verified with Verus.

- `src/speech.rs`: Ferris greets a name. The greeting is built and measured
  here; the speech bubble is drawn by `ferris_says`, called behind one
  trusted wrapper.
- `src/declaration.rs`: the path of the extension's TypeScript declaration
  file, with path joining proved against its specification.
- `src/repl.rs`: the decisions of the read-eval-print loop (what a read
  line, Ctrl+C, end of input or a failed read lead to; what follows an
  evaluation; which inspector notifications are printed; when the runtime's
  event loop may run).
- `src/startup.rs`: the error reports for `--eval-file` and `--eval`, and
  the startup banner.
- `app/lib.rs`: printing, JSON arguments, and the loop itself driven by a
  `rustyline` editor.
