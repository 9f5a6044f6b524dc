//! Transition instructions: head movements, branch outcomes, and the
//! two-branch rule that a machine step applies to the cell under the head.

use vstd::prelude::*;

verus! {

/// One head movement: retreat one cell, stay in place, or advance one cell.
#[derive(Clone, Copy)]
pub enum Direction {
    Left,
    Stay,
    Right,
}

/// The displacement a movement applies to the head position.
pub open spec fn dir_offset(d: Direction) -> int {
    match d {
        Direction::Left => -1,
        Direction::Stay => 0,
        Direction::Right => 1,
    }
}

/// What one branch of an instruction does: the value to write into the
/// current cell, the head movement, and the index of the next instruction.
#[derive(Clone, Copy)]
pub struct State {
    pub write: bool,
    pub dir: Direction,
    pub next: usize,
}

impl State {
    pub fn new(write: bool, dir: Direction, next: usize) -> (s: Self)
        ensures
            s == (State { write, dir, next }),
    {
        Self { write, dir, next }
    }
}

/// A single transition rule: when the cell under the head equals `expected`
/// the `yes` outcome is applied, otherwise the `no` outcome.
pub struct Instruction {
    pub expected: bool,
    pub yes: State,
    pub no: State,
}

impl Instruction {
    pub fn new(expected: bool, yes: State, no: State) -> (i: Self)
        ensures
            i == (Instruction { expected, yes, no }),
    {
        Self { expected, yes, no }
    }
}

/// The outcome an instruction selects for a given cell value.
pub open spec fn chosen_outcome(inst: Instruction, cell: bool) -> State {
    if cell == inst.expected {
        inst.yes
    } else {
        inst.no
    }
}

} // verus!
