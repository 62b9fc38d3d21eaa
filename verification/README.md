# andon

A signal-routing daemon: binary `On`/`Off` signals flow from sources
(URL health checks, cron windows) through logic nodes (NOT, AND, OR, XOR,
turn-on delay) to sinks (a log, Meross smart plugs), wired by name from a
TOML file.

## Layout

- `src/` — the library, verified with Verus.  Every decision of the
  daemon lives here with its contract, but for drawing a jittered probe
  wait, which takes floating point:
  - `signal`, `table` — signals and the per-source table of last signals;
  - `gate`, `delay`, `nodes` — the logic nodes and the turn-on delay, with
    the laws they obey;
  - `sources` — URL probe verdicts, probe schedules, cron sources;
  - `sinks` — the log sink's change tracking and the Meross plug sink;
  - `bus`, `config` — building components from a configuration,
    resolving sink names into routes, fanning a source's signals out to
    them, and the order of startup (alarms off, sinks connected, sinks
    started, then sources) and shutdown (alarms off);
  - `meross`, `util`, `text`, `span` — request signing, login and device
    lookup, message delivery for the Meross cloud, digests, encodings,
    number formatting and durations (a duration string is refused when the
    values of its runs of digits, each plus two, add up to more than 584
    billion: that many of humantime's largest unit, the year, would
    approach `u64::MAX` seconds, where its arithmetic can panic);
  - `firing` — the cycle of a cron source: wait for the firing time, send
    `On`, hold it, send `Off`, and only then look for the next time.
- `app/` — the daemon: command line, TOML parsing, tokio tasks, timers,
  HTTP and MQTT.  It hands the library plain values and acts on its answers.
- `tests/` — tests of the library on concrete values.
