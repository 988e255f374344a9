# voxmorph

Real-time and offline voice conversion (RVC). The `voxmorph` library holds
the parts of the system whose behaviour can be stated exactly, each with a
contract proved by Verus:

- `shape` — sample-count arithmetic: milliseconds to samples, conversions
  between sample rates, feature-frame counts, alignment to model buckets.
- `buffers`, `stream` — the rolling windows of the RVC stream and their sizes.
- `feature`, `stages`, `infer` — feature tensors (frame repetition and
  trimming), model input layouts, tensors, execution-provider order.
- `sola` — the windows, offsets and references of SOLA chunk joining.
- `frame`, `worker` — frames, the frame adapter that packs a sample stream,
  pipeline configuration, the decisions of the worker loops.
- `timbre` — timbre ids, the embedding file format, file-name sanitising,
  and the timbre library (lookup by id, name and tag; duplicate ids skipped).
- `ui` — the GUI state machine and device descriptions.
- `error`, `text` — error types and their messages.

Audio samples cross into the library as the bit patterns of `f32` values;
the library moves, pads, trims and packs them but never computes on them.

`app/` is the code around the library: audio devices (`cpal`), WAV files
(`hound`), floating-point DSP (`rubato`, `realfft`), ONNX inference (`ort`),
the threaded pipeline and real-time engine, timbre files (`toml`), and the
GUI commands.

`tests/` exercises the library on concrete values.
