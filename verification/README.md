# xcope

A tempo-aware, multi-channel oscilloscope core, verified with Verus.

## Layout

- `src/` — the verified library. Real-valued quantities (samples, zoom,
  tempo, sample rate, song positions) are carried as IEEE-754 bit patterns;
  the decisions taken on those patterns (clamping, finiteness, equality,
  storage, persistence) are stated and proved, while arithmetic on the real
  values themselves stays in `app/`:
  - `params/` — parameter store, enumerations, host metadata and plain values;
  - `state_io` — the 22-byte persisted state format and its round trip;
  - `transport`, `transport_context` — the host transport mirror and the
    decoding of each block's process context;
  - `scope/` — the capture ring buffer, the column partition used for
    min/max decimation, and the channel palette;
  - `gui/` — editor layout geometry, the UI action reducer and freeze;
  - `bus` — audio bus layouts and arrangement negotiation;
  - `passthrough` — input-to-output audio passthrough;
  - `shared_registry` — processor/controller pairing.
- `tests/` — tests of the library on concrete values.
- `app/` — the floating-point arithmetic, which is not verified (normalized
  host values, tempo timing and window sizing, min/max envelopes) and the plugin hosting, which needs the toybox
  framework and is built only with its `toybox` feature.
