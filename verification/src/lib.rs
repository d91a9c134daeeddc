//! Encoding and decoding of microcommands of a basic educational computer:
//! a microcommand is a 64-bit word of control signals, written in text as
//! register transfers (`AC + DR → DR`) or conditional jumps
//! (`if PS(Z) = 1 then GOTO LOOP @ 1A`).
pub mod text;
pub mod control_signals;
pub mod command;
pub mod table;
pub mod grammar;
pub mod foreign;
pub mod parse;
pub mod laws;
pub mod roundtrip;
pub mod roundtrip_omc;
pub mod roundtrip_words;
