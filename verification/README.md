# dhvani

Core of an audio engine, verified with Verus.

- `src/` — the verified library: MIDI 1.0 ↔ 2.0 translation, MIDI routing and
  velocity curves, the polyphonic voice pool and its stealing policies,
  buffer shapes and sample formats, mix and crossfade planning, convolution
  partitioning, reverb delay scaling, graphic-EQ presets, the routing matrix,
  the transport clock, sound-server device classification and stream framing,
  and error messages. Every public function carries a contract; the `lemma_*`
  proof functions state the laws that hold across calls.
  Single-precision values that the library only stores, compares or moves
  (voice levels, routing gains, stream samples) are held as their bit
  patterns.
- `tests/` — tests run against the compiled library.
- `app/` — the floating-point signal processing (filters, dynamics, reverb,
  resampling, analysis), the bridges to the synthesis and acoustics crates,
  serializable copies of the library's types, the C interface and the
  PipeWire capture/playback loops. It needs the PipeWire system libraries to
  build.
