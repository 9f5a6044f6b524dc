//! The program: a machine, a fixed table of transition instructions, and a
//! cursor into the table. The run loop executes the instruction at the
//! cursor until the cursor falls outside the table; a cursor at or past the
//! table's length is the terminal, halted state.

use vstd::prelude::*;

use crate::inst::Instruction;
use crate::machine::{step_machine, step_next, Machine, MachineView};
use crate::tape::seed_tape;

verus! {

/// The larger of two naturals.
pub open spec fn nat_max(a: nat, b: nat) -> nat {
    if a >= b {
        a
    } else {
        b
    }
}

/// The mathematical content of a program: its machine, its instruction
/// table, and its cursor.
pub ghost struct ProgramView {
    pub machine: MachineView,
    pub insts: Seq<Instruction>,
    pub cur: nat,
}

impl ProgramView {
    /// Program well-formedness: the machine is well formed.
    pub open spec fn wf(self) -> bool {
        self.machine.wf()
    }

    /// The terminal state: the cursor sits at or past the table's length,
    /// whether through the halt sentinel or an authored out-of-range `next`.
    pub open spec fn halted(self) -> bool {
        self.cur >= self.insts.len()
    }
}

/// One transition of the run loop: while the cursor addresses an
/// instruction, the machine executes it and the cursor takes the reported
/// next value; a halted program stays exactly as it is.
pub open spec fn program_step(p: ProgramView) -> ProgramView {
    if p.cur < p.insts.len() {
        ProgramView {
            machine: step_machine(p.machine, p.insts[p.cur as int]),
            insts: p.insts,
            cur: step_next(p.machine, p.insts[p.cur as int], p.insts.len()),
        }
    } else {
        p
    }
}

/// The program after `n` transitions of the run loop.
pub open spec fn run_steps(p: ProgramView, n: nat) -> ProgramView
    decreases n,
{
    if n == 0 {
        p
    } else {
        program_step(run_steps(p, (n - 1) as nat))
    }
}

/// One observation of a machine: the head position and the prefix of the
/// cells up to the high-water mark.
pub open spec fn observation(m: MachineView) -> (nat, Seq<bool>) {
    (m.head, m.tape.data.take(m.tape.count as int))
}

/// The observations a run offers after construction and after each of its
/// first `n` steps.
pub open spec fn run_trace(p: ProgramView, n: nat) -> Seq<(nat, Seq<bool>)> {
    Seq::new(n + 1, |i: int| observation(run_steps(p, i as nat).machine))
}

/// The program state a run starts from: a tape deterministically seeded
/// from a byte string, the head at the left edge, and the cursor at the
/// first instruction.
pub open spec fn initial_view(seed: Seq<u8>, insts: Seq<Instruction>) -> ProgramView {
    ProgramView {
        machine: MachineView { tape: seed_tape(seed), head: 0 },
        insts: insts,
        cur: 0,
    }
}

/// One transition preserves well-formedness and the instruction table, the
/// new high-water mark is exactly the old one raised to cover the new head
/// position, the head moves by at most one cell, and the capacity never
/// shrinks.
pub proof fn lemma_program_step_wf(p: ProgramView)
    requires
        p.wf(),
    ensures
        program_step(p).wf(),
        program_step(p).insts == p.insts,
        program_step(p).machine.tape.count == nat_max(
            p.machine.tape.count,
            program_step(p).machine.head,
        ),
        program_step(p).machine.head <= p.machine.head + 1,
        program_step(p).machine.tape.capacity >= p.machine.tape.capacity,
        program_step(p).machine.tape.capacity == program_step(p).machine.tape.data.len(),
{
}

/// Growth invariant: along any sequence of transitions the tape stays well
/// formed — the capacity bookkeeping always equals the number of allocated
/// cells and the high-water mark never exceeds the capacity — and the
/// instruction table never changes.
pub proof fn lemma_growth_invariant(p: ProgramView, n: nat)
    requires
        p.wf(),
    ensures
        run_steps(p, n).wf(),
        run_steps(p, n).machine.tape.capacity == run_steps(p, n).machine.tape.data.len(),
        run_steps(p, n).machine.tape.count <= run_steps(p, n).machine.tape.capacity,
        run_steps(p, n).insts == p.insts,
    decreases n,
{
    if n > 0 {
        lemma_growth_invariant(p, (n - 1) as nat);
        lemma_program_step_wf(run_steps(p, (n - 1) as nat));
    }
}

/// The maximum over the initial high-water mark and every head position the
/// run reaches within its first `n` transitions.
pub open spec fn high_water(p: ProgramView, n: nat) -> nat
    decreases n,
{
    if n == 0 {
        p.machine.tape.count
    } else {
        nat_max(high_water(p, (n - 1) as nat), run_steps(p, n).machine.head)
    }
}

/// Count high-water mark: after any number of transitions the tape's
/// `count` equals the initial count raised to the maximum head position
/// reached at any point of the run — not merely the final head position.
pub proof fn lemma_count_high_water(p: ProgramView, n: nat)
    requires
        p.wf(),
    ensures
        run_steps(p, n).machine.tape.count == high_water(p, n),
    decreases n,
{
    if n > 0 {
        lemma_count_high_water(p, (n - 1) as nat);
        lemma_growth_invariant(p, (n - 1) as nat);
        lemma_program_step_wf(run_steps(p, (n - 1) as nat));
    }
}

/// Determinism given seed: two runs built from the same seed string and the
/// same instruction table offer identical sequences of (head, cell-prefix)
/// observations, however long they are watched.
pub proof fn lemma_run_deterministic(
    seed1: Seq<u8>,
    seed2: Seq<u8>,
    insts: Seq<Instruction>,
    n: nat,
)
    requires
        seed1 == seed2,
    ensures
        run_trace(initial_view(seed1, insts), n) == run_trace(initial_view(seed2, insts), n),
{
}

/// A machine, an ordered table of instructions fixed after construction
/// with its length mirrored in `inst_count`, and the cursor of the run
/// loop.
pub struct Program {
    pub machine: Machine,
    pub insts: Vec<Instruction>,
    pub inst_count: usize,
    pub cur: usize,
}

impl View for Program {
    type V = ProgramView;

    open spec fn view(&self) -> ProgramView {
        ProgramView { machine: self.machine@, insts: self.insts@, cur: self.cur as nat }
    }
}

impl Program {
    /// Program well-formedness: the machine is well formed and the stored
    /// instruction count mirrors the table's length.
    pub open spec fn wf(&self) -> bool {
        &&& self@.wf()
        &&& self.inst_count == self.insts@.len()
    }

    /// A program over the given machine and instruction table, with the
    /// cursor at the first instruction.
    pub fn new(machine: Machine, insts: Vec<Instruction>) -> (p: Program)
        ensures
            p@ == (ProgramView { machine: machine@, insts: insts@, cur: 0nat }),
            p.inst_count == insts@.len(),
    {
        let inst_count = insts.len();
        Program { machine, insts, inst_count, cur: 0 }
    }

    /// Whether the cursor has fallen outside the instruction table.
    pub fn halted(&self) -> (r: bool)
        requires
            self.wf(),
        ensures
            r == self@.halted(),
    {
        self.cur >= self.inst_count
    }

    /// One transition of the run loop: execute the instruction at the
    /// cursor and move the cursor to the reported next value; on a halted
    /// program, do nothing. Reports whether a step was executed.
    pub fn step(&mut self) -> (stepped: bool)
        requires
            old(self).wf(),
            old(self).machine.head >= old(self).machine.tape.capacity ==> old(
                self,
            ).machine.tape.capacity <= usize::MAX / 2,
        ensures
            final(self)@ == program_step(old(self)@),
            final(self).wf(),
            final(self).inst_count == old(self).inst_count,
            stepped == !old(self)@.halted(),
    {
        if self.cur < self.inst_count {
            let next = self.machine.machine_execute(&self.insts[self.cur], self.inst_count);
            self.cur = next;
            true
        } else {
            false
        }
    }

    /// Drive the run loop for at most `max_steps` transitions, stopping
    /// early exactly when the program halts. Reports how many transitions
    /// were executed.
    pub fn run(&mut self, max_steps: usize) -> (steps: usize)
        requires
            old(self).wf(),
            old(self).machine.head + max_steps <= usize::MAX / 2,
        ensures
            steps <= max_steps,
            final(self)@ == run_steps(old(self)@, steps as nat),
            final(self).wf(),
            steps < max_steps ==> final(self)@.halted(),
            forall|i: nat| i < steps ==> !(#[trigger] run_steps(old(self)@, i)).halted(),
    {
        let mut steps: usize = 0;
        while steps < max_steps && self.cur < self.inst_count
            invariant
                steps <= max_steps,
                self@ == run_steps(old(self)@, steps as nat),
                self.wf(),
                old(self).machine.head + max_steps <= usize::MAX / 2,
                self@.machine.head <= old(self).machine.head + steps,
                forall|i: nat| i < steps ==> !(#[trigger] run_steps(old(self)@, i)).halted(),
            decreases max_steps - steps,
        {
            proof {
                lemma_program_step_wf(self@);
            }
            let ghost before = self@;
            let _ = self.step();
            steps = steps + 1;
            proof {
                assert(run_steps(old(self)@, steps as nat) == program_step(
                    run_steps(old(self)@, (steps - 1) as nat),
                ));
                assert(run_steps(old(self)@, (steps - 1) as nat) == before);
            }
        }
        steps
    }
}

} // verus!
