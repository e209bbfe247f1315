# rav1e (verified core)

Parts of an AV1 encoder whose behaviour is stated in contracts and proved
with Verus.

## Layout

- `src/api/` — encoder settings and their validation, the re-ordering
  configuration, the frame queue, and the frame scheduling state machine
  (`schedule.rs` states it over mathematical values, `internal.rs` and
  `context.rs` implement it). `laws.rs` holds the properties that span
  several calls: frames of a group are shown in input order, packets carry
  the values attached to their frames exactly once, forced keyframes are
  placed, the queue keeps what the lookahead still needs, propagated
  importance is split without loss. The frame queue states which frame each
  entry holds; sending a frame stores it, later calls only drop old entries.
  `importance.rs` picks the frames the lookahead propagates importances
  over; `lookahead.rs` sums block mean differences between two frames and
  says onto which blocks, and in what shares, a block's importance goes.
- `src/transform/` — the 1-D inverse DCT and ADST of 8 to 64 points as
  butterfly programs (`programs.rs`) run by a verified interpreter
  (`butterfly.rs`), the selection of the transform for a block
  (`inverse.rs`), and the 2-D inverse transform with reconstruction
  (`inverse_2d.rs`). `dc.rs` states the 8-point inverse DCT and ADST and the
  DC-only inverse DCTs stage by stage and proves the programs compute them;
  `stages_idct16.rs`, `stages_idct32.rs` and `stages_iadst.rs` do the same,
  over the opaque arithmetic of `stages.rs`, for the 16-point inverse DCT
  (full and low8), the 32-point inverse DCT and every inverse ADST;
  `inverse.rs` also proves the output range of every clamping pass.
- `src/frame.rs`, `src/pixel.rs`, `src/math.rs` — frames, planes, sample
  types and the alignment arithmetic they need.
- `src/palette.rs` — palette search helpers: color histograms, dominant
  colors, centroid clean-up against a color cache.
- `src/activity.rs` — 8x8 block variances of a luma plane.
- `src/denoise.rs` — block layout of the temporal denoiser and the
  conditions under which it waits for frames.
- `src/tiling/` — per-tile views of motion estimation statistics.
- `src/decoder.rs` — what a y4m stream header says about the video.
- `app/` — the command line front end: y4m input, the retinex transform
  (floating point) and the lookahead's floating-point block difference and
  importance propagation.
- `tests/` — tests of the library on concrete values.
