# neolink (verified resource and stream decisions)

`src/` is a Verus library holding the decisions of the camera proxy's
resource handling and motion-paused streaming:

- `limits` — raising the descriptor soft limit to the hard limit;
- `monitor` — the once-a-minute usage monitor (peak, hourly report,
  threshold warnings with re-arming), with its warning and peak laws;
- `breakdown` — classifying open descriptors by link target and counting them;
- `usage` — the one-line usage summary;
- `exhaustion` — recognising "too many open files" errors in an error chain,
  given the platform's `EMFILE` and `ENFILE`;
- `stream` — the motion pause of a stream, the relay that follows it (streaming
  exactly while a reason to stream holds), and the
  frame watchdog;
- `text` — decimal rendering and prefix / substring tests.

`app/` holds the resource side around the library: the `getrlimit` and
`setrlimit` calls, the `/proc` reads, the floating-point usage percentage,
logging and the monitor task; it calls the library for every decision it
makes. The stream driver that would call `stream` (the camera session, its
configuration, the motion and push-notification channels and the media
channel) belongs to parts of the proxy outside this crate, so `app/` has no
caller of `stream`.
