# sigue

A wrapper that runs a command line program, recognises its rate limits (server throttles and
account limits), waits for as long as needed, and retries. *Sigue* is Spanish for *keep going*.

The program to wrap is named when the wrapper is built, with `SIGUE_PROGRAM=<program>` in the
environment of the compiler; the wrapper then runs under any name. Built without it, the wrapper
is installed as `sigue-<program>` and wraps `<program>`. In interactive mode it
runs the program inside tmux and watches its pane; with `-p` or `--print` it runs the program to
its end and runs it again after a rate limit.

## Layout

- `src/` is the library, verified with Verus: what the wrapper decides and computes, each function with its
  contract.
  - `patterns`, `regexp`: recognising a rate limit on a screen
  - `time`, `calendar`: how long to wait until it resets
  - `config`: the settings, the backoff, the custom patterns
  - `monitor`, `journal`: watching a pane, step by step, and what is logged of it
  - `print_mode`, `countdown`: running again, and waiting
  - `cli`, `tmux`, `shell`: the command line, the commands for tmux, quoting for a shell
  - `logger`, `report`: the log files, and what is shown of sessions and logs
  - `text`, `numeral`: strings and numbers
- `app/` runs processes, reads files and sleeps, as the library decides.
- `tests/` runs the library on concrete values.

Laws that hold of the library as a whole are public proof functions in the modules they speak of,
such as `monitor::retry_is_prepared`: the retry message is sent only after a wait, to a live
process, while the limit is still on the screen and the program is in the foreground.

What is believed without proof of `chrono`, `chrono-tz`, `regex` and the standard library stands
in `calendar`, `regexp` and `text`, each item marked `Trusted` in its comment.
