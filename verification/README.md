# lazybacklog

A keyboard-driven terminal browser for Backlog issues: pick a space and a
project, browse and search its issues, filter them by assignee or status, and
read an issue with its comments.

## Layout

- `src/` is the library, written in Verus and verified. It holds the data
  model, the per-space application state, the key handling state machine
  (`handler.rs`: each key press gives the next state and one effect to
  perform), the search over issues, users and statuses, the status filter,
  the request URLs and query parameters of the Backlog API, configuration
  checks, the demo data set and the text and geometry of every view.
  `laws.rs` states properties that span several operations.
- `app/` is the program around it: argument handling, reading the
  configuration file, the terminal, the HTTP client, the event loop that
  performs the effects the library asks for, and the drawing of the views.
- `tests/` exercises the library on concrete values.

## Configuration

`~/.config/lazybacklog/config.toml` (or `$XDG_CONFIG_HOME/lazybacklog/config.toml`):

```toml
default_space = "myspace"

[[spaces]]
name = "myspace"
host = "myspace.backlog.com"
api_key = "YOUR_API_KEY"
```

Run with `--demo` to browse a built-in data set without an account.
