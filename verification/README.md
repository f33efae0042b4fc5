# vvtv_core

The core of an autonomous video channel: discovery in a browser, planning,
processing, compliance, distribution, monetization and monitoring.

- `src/` is the library, written in Verus. Each function states what it does
  in `requires`/`ensures`, and Verus proves it. Laws that relate several
  functions are public proof functions named `law_*`. Calls into outside
  crates (regex, sha2, hmac, hex, base64, url, chrono, rand, serde_json) go
  through small trusted wrappers whose contracts are stated in their doc
  comments.
- `app/` is ordinary Rust around the library: the clock, files and
  directories, child processes, and JSON forms of library values.
- `tests/` exercise the library on concrete values.

Times are held as seconds and nanoseconds since the Unix epoch, durations as
whole seconds or milliseconds, and rates as thousandths, so that the logic
that reads them can be proved.
