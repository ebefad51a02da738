# aio_poll

Completion polling for POSIX asynchronous I/O requests made with nix's
`AioCb`, verified with Verus.

- `src/status.rs`: `AioStatus`, the library's reading of what `aio_error`
  reports for a request.
- `src/poll.rs`: the one trusted call (`AioCb::error`), the verified polling
  step (`poll_step`, `poll_once`) that decides between finishing and waiting
  `POLL_INTERVAL_MS` milliseconds, and the laws of a polling run
  (`poll_outcome`, `poll_actions` and their lemmas).
- `app/lib.rs`: the loop that sleeps as `poll_once` asks, and the signal
  handler that completion notifications are delivered to.
- `tests/`: the asynchronous I/O tests, run against a temporary file, and
  tests of the polling decision.
