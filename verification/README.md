# opus

Bindings for libopus, the Opus audio codec, whose logic is verified with Verus.

- `src/` is the verified library. For every libopus entry point it uses, it
  decides what the call is handed (request numbers, setting values, frame
  sizes, buffer lengths, a null packet for a lost one) and what each value the
  call returns means (counts, settings, error codes and their descriptions,
  frames cut out of a parsed packet). The calls are made by closures that the
  caller passes in; the contracts state the arguments each closure is given and
  the result for every value it can return. A call that changes a state
  takes the handle of that state and gives back the handle of the state it
  left, so the contracts also fix the order of the calls: `combine` empties the
  repacketizer first, then adds the packets one after the other, each to the
  state the addition before it left, and builds its packet from the last one.
  - `codec.rs`: applications, channels, bandwidths, bitrates and their numbers.
  - `error.rs`: error codes, the error type and the checks of return values.
  - `encoder.rs`, `decoder.rs`, `repacketizer.rs`: the codec states.
  - `packet.rs`: packet analysis, parsing and padding.
  - `defines.rs`: the numbers of the libopus C interface.
- `app/` makes the calls into libopus through `audiopus_sys`, owns the C
  states, and offers the usual API of the bindings on top of `src/`.
- `tests/` runs the library with closures that stand in for libopus.
