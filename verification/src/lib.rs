//! A verified single-tape Turing-machine emulator.
//!
//! The machine works on a growable tape of boolean cells with a fixed left
//! edge: a head reads and writes one cell per step, the tape doubles in
//! capacity whenever the head advances past the allocated region, and a
//! program drives the steps through a fixed table of transition
//! instructions until the program counter falls outside the table.

pub mod inst;
pub mod machine;
pub mod program;
pub mod tape;
