# bcomp_mc

Encoding and decoding of the microcommands of a basic educational computer,
verified with Verus.

A microcommand is a 64-bit word. Bit 39 tells its kind:

- an operational microcommand sets single-bit signals in bits 0..39 and is
  written as register transfers and actions, such as `AC + DR → DR; HALT`;
- a control microcommand tests bits of a register and jumps, and is written
  `if PS(Z) = 1 then GOTO LOOP @ 1A` or `GOTO LOOP @ 1A`.

Layout:

- `src/control_signals.rs`: the signals and their bits;
- `src/command.rs`: decoding a word into signals and into text;
- `src/grammar.rs`, `src/parse.rs`: reading text back into a word;
- `src/table.rs`: a microprogram memory with labelled cells;
- `src/foreign.rs`: the calls into `parse_int` and `str::to_uppercase`;
- `src/laws.rs` and the `roundtrip` modules: properties that relate the
  operations, with their proofs;
- `app/`: the program entry and the WebAssembly bindings.
