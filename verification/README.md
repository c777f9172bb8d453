# logig560

Lighting control for the Logitech G560 speakers: manual per-zone colors and
content-aware lighting driven by the screen, run as a user service.

## Layout

- `src/` — the verified library (Verus). Its functions are proved against
  their contracts; the recovery metrics, whose counts live in std atomics
  that Verus does not model, have none:
  - `api.rs`, `color.rs`: the shared API types, zone order and conversions,
    manual-update validation, `RRGGBB` color parsing.
  - `usb/`: the 20-byte HID report and the G560 driver over an injectable
    transport (identical updates skipped, failed updates not remembered).
    For transports and delays that keep a record (such as the recording,
    optionally scripted, transport and the recording delay beside the
    driver), the driver's contracts say what they are handed and how the
    transport's answers decide the driver's result.
  - `frame.rs`: RGB frames and the G560 screen-region masks (a partition of
    the frame, mirrored left/right).
  - `transition.rs`: per-zone fade timing.
  - `control/model.rs`: the controller state machine (configuration,
    revisions, pending/confirmed colors, runtime effects).
  - `engine.rs`: the writer's decisions, capture generations that fence
    frames across blackouts, retry backoff, stale-capture handling.
  - `sampling.rs`: the sampling loop's steps (the 500 ms capture-stall
    blackout, stale frames, when the loop stops) and the engine's teardown
    verdict (which error is reported, the dropped-frame count).
  - `capture/`: capture errors and retry policy, portal selection,
    output-size scaling and the caps latch, Gamescope pacing and BGRx
    conversion, and the capture test's brightness statistics.
  - `config.rs`, `os_release.rs`, `setup.rs`, `service.rs`: configuration
    validation and migration, os-release parsing, setup reports, and the
    service's start and request handling decisions. Paths are carried as
    their UTF-8 text.
- `app/` — the program around the library: the command line, the service
  runtime, the socket protocol, USB, PipeWire/GStreamer/portal capture, and
  the floating-point color blending and sampling.
- `tests/` — tests of the library's public functions.
