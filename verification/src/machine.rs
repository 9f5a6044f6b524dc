//! The machine: a tape and a head position. One step applies a single
//! instruction to the cell under the head, growing the tape first when the
//! head sits past the allocated region, and reports the next
//! program-counter value — or the halt sentinel when the head would retreat
//! past the fixed left edge.

use vstd::prelude::*;

use crate::inst::{chosen_outcome, dir_offset, Direction, Instruction};
use crate::tape::{doubled, Tape, TapeView};

verus! {

/// The mathematical content of a machine: its tape and its head position.
pub ghost struct MachineView {
    pub tape: TapeView,
    pub head: nat,
}

impl MachineView {
    /// Machine well-formedness: the tape is well formed and the head never
    /// sits past the high-water mark (every position the head reaches is
    /// recorded in `count`).
    pub open spec fn wf(self) -> bool {
        &&& self.tape.wf()
        &&& self.head <= self.tape.count
    }
}

/// The tape after the growth phase of a step: doubled exactly when the head
/// sits at or past the allocated region, untouched otherwise.
pub open spec fn grown_tape(t: TapeView, head: nat) -> TapeView {
    if head >= t.capacity {
        doubled(t)
    } else {
        t
    }
}

/// The machine after one step: grow if needed, read the cell under the head,
/// write the selected outcome's value there, then either stay put (left-edge
/// halt) or move the head and raise the high-water mark to cover it.
pub open spec fn step_machine(m: MachineView, inst: Instruction) -> MachineView {
    let t = grown_tape(m.tape, m.head);
    let out = chosen_outcome(inst, t.data[m.head as int]);
    let written = TapeView {
        data: t.data.update(m.head as int, out.write),
        count: t.count,
        capacity: t.capacity,
    };
    if m.head == 0 && out.dir is Left {
        MachineView { tape: written, head: 0 }
    } else {
        let new_head = (m.head + dir_offset(out.dir)) as nat;
        let new_count = if new_head > written.count {
            new_head
        } else {
            written.count
        };
        MachineView {
            tape: TapeView { data: written.data, count: new_count, capacity: written.capacity },
            head: new_head,
        }
    }
}

/// The program-counter value one step reports: the halt sentinel
/// `inst_count` on a left-edge retreat, the selected outcome's `next`
/// otherwise.
pub open spec fn step_next(m: MachineView, inst: Instruction, inst_count: nat) -> nat {
    let t = grown_tape(m.tape, m.head);
    let out = chosen_outcome(inst, t.data[m.head as int]);
    if m.head == 0 && out.dir is Left {
        inst_count
    } else {
        out.next as nat
    }
}

/// Doubling law: when a step finds the head at or past the allocated region
/// the new capacity is exactly twice the old one (never a single-cell
/// increment), every newly introduced cell other than the one just written
/// still holds `false` after the step, and the cell just written holds the
/// outcome selected for a fresh `false` cell.
pub proof fn lemma_doubling(m: MachineView, inst: Instruction)
    requires
        m.wf(),
        m.head >= m.tape.capacity,
    ensures
        step_machine(m, inst).tape.capacity == 2 * m.tape.capacity,
        step_machine(m, inst).tape.data.len() == 2 * m.tape.capacity,
        forall|i: int|
            m.tape.capacity <= i < 2 * m.tape.capacity && i != m.head ==> step_machine(
                m,
                inst,
            ).tape.data[i] == false,
        step_machine(m, inst).tape.data[m.head as int] == chosen_outcome(inst, false).write,
{
    assert(m.head == m.tape.capacity);
    assert(grown_tape(m.tape, m.head).data[m.head as int] == false);
}

/// Left-edge halt: with the head at the fixed left edge and the selected
/// outcome retreating, the step reports the halt sentinel `inst_count` and
/// leaves the head position and the high-water mark unchanged; only the
/// cell under the head is overwritten, as on every step.
pub proof fn lemma_left_edge_halt(m: MachineView, inst: Instruction, inst_count: nat)
    requires
        m.wf(),
        m.head == 0,
        chosen_outcome(inst, grown_tape(m.tape, m.head).data[0]).dir is Left,
    ensures
        step_next(m, inst, inst_count) == inst_count,
        step_machine(m, inst).head == m.head,
        step_machine(m, inst).tape.count == m.tape.count,
        step_machine(m, inst).tape.capacity == grown_tape(m.tape, m.head).capacity,
        step_machine(m, inst).tape.data == grown_tape(m.tape, m.head).data.update(
            0,
            chosen_outcome(inst, grown_tape(m.tape, m.head).data[0]).write,
        ),
{
}

/// A tape, exclusively owned, and a read/write head position on it.
pub struct Machine {
    pub tape: Tape,
    pub head: usize,
}

impl View for Machine {
    type V = MachineView;

    open spec fn view(&self) -> MachineView {
        MachineView { tape: self.tape@, head: self.head as nat }
    }
}

impl Machine {
    /// A machine whose head starts at the left edge of the given tape.
    pub fn new(tape: Tape) -> (m: Machine)
        ensures
            m@ == (MachineView { tape: tape@, head: 0nat }),
    {
        Machine { tape, head: 0 }
    }

    /// Apply one instruction: grow the tape if the head sits past the
    /// allocated region, read and overwrite the cell under the head, move
    /// the head (halting at the fixed left edge), and report the next
    /// program-counter value.
    pub fn machine_execute(&mut self, inst: &Instruction, inst_count: usize) -> (next: usize)
        requires
            old(self)@.wf(),
            old(self).head >= old(self).tape.capacity ==> old(self).tape.capacity <= usize::MAX
                / 2,
        ensures
            final(self)@ == step_machine(old(self)@, *inst),
            next == step_next(old(self)@, *inst, inst_count as nat),
            final(self)@.wf(),
    {
        if self.head >= self.tape.capacity {
            self.tape.grow();
        }
        let cell = self.tape.data[self.head];
        if cell == inst.expected {
            self.tape.data.set(self.head, inst.yes.write);
            if self.head == 0 && matches!(inst.yes.dir, Direction::Left) {
                return inst_count;
            }
            self.head = match inst.yes.dir {
                Direction::Left => self.head - 1,
                Direction::Stay => self.head,
                Direction::Right => self.head + 1,
            };
            if self.head > self.tape.count {
                self.tape.count = self.head;
            }
            inst.yes.next
        } else {
            self.tape.data.set(self.head, inst.no.write);
            if self.head == 0 && matches!(inst.no.dir, Direction::Left) {
                return inst_count;
            }
            self.head = match inst.no.dir {
                Direction::Left => self.head - 1,
                Direction::Stay => self.head,
                Direction::Right => self.head + 1,
            };
            if self.head > self.tape.count {
                self.tape.count = self.head;
            }
            inst.no.next
        }
    }

    /// The read-only projection offered for observation between steps: the
    /// head position and the prefix of the cells up to the high-water mark.
    pub fn observe(&self) -> (r: (usize, Vec<bool>))
        requires
            self@.wf(),
        ensures
            r.0 == self.head,
            r.1@ == self@.tape.data.take(self@.tape.count as int),
    {
        let mut cells: Vec<bool> = Vec::new();
        let mut i: usize = 0;
        while i < self.tape.count
            invariant
                self@.wf(),
                i <= self@.tape.count,
                cells@.len() == i,
                forall|j: int| 0 <= j < i ==> cells@[j] == self@.tape.data[j],
            decreases self@.tape.count - i,
        {
            cells.push(self.tape.data[i]);
            i = i + 1;
        }
        proof {
            assert(cells@ =~= self@.tape.data.take(self@.tape.count as int));
        }
        (self.head, cells)
    }
}

} // verus!
