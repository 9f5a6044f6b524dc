use turing::inst::{Direction, Instruction, State};
use turing::machine::Machine;
use turing::program::Program;
use turing::tape::Tape;

fn flip_right(next: usize) -> Instruction {
    Instruction::new(
        false,
        State::new(true, Direction::Right, next),
        State::new(true, Direction::Right, next),
    )
}

#[test]
fn with_capacity_is_all_false() {
    let t = Tape::with_capacity(4);
    assert_eq!(t.data, vec![false, false, false, false]);
    assert_eq!(t.count, 4);
    assert_eq!(t.capacity, 4);
}

#[test]
fn from_seed_parses_binary_string() {
    let t = Tape::from_seed(&b"1010x".to_vec());
    assert_eq!(t.data, vec![true, false, true, false, false]);
    assert_eq!(t.count, 5);
    assert_eq!(t.capacity, 5);
}

#[test]
fn tape_randomize_keeps_size_bookkeeping() {
    let mut t = Tape::with_capacity(6);
    t.tape_randomize();
    assert_eq!(t.data.len(), 6);
    assert_eq!(t.count, 6);
    assert_eq!(t.capacity, 6);
}

#[test]
fn growth_doubles_capacity_exactly() {
    // One instruction that always writes true and advances; head positions
    // 0, 1, 2 stay inside the allocation, the fourth step finds the head at
    // the capacity and must grow first.
    let mut m = Machine::new(Tape::with_capacity(3));
    let inst = flip_right(0);
    for _ in 0..3 {
        let next = m.machine_execute(&inst, 1);
        assert_eq!(next, 0);
    }
    assert_eq!(m.tape.capacity, 3);
    assert_eq!(m.head, 3);
    let next = m.machine_execute(&inst, 1);
    assert_eq!(next, 0);
    // Doubled exactly, never a single-cell increment; the new cells are
    // false until written, and the cell the step wrote is true.
    assert_eq!(m.tape.capacity, 6);
    assert_eq!(m.tape.data.len(), 6);
    assert_eq!(m.tape.data, vec![true, true, true, true, false, false]);
    assert_eq!(m.head, 4);
    assert_eq!(m.tape.count, 4);
}

#[test]
fn growth_invariant_holds_after_each_step() {
    // An endless right-mover: step it well past two doublings and check the
    // size bookkeeping after every single step.
    let insts = vec![flip_right(0)];
    let mut p = Program::new(Machine::new(Tape::with_capacity(2)), insts);
    for _ in 0..20 {
        let stepped = p.step();
        assert!(stepped);
        assert_eq!(p.machine.tape.capacity, p.machine.tape.data.len());
        assert!(p.machine.tape.count <= p.machine.tape.capacity);
    }
    assert_eq!(p.machine.head, 20);
    assert_eq!(p.machine.tape.capacity, 32);
}

#[test]
fn left_edge_halt_returns_sentinel() {
    // Head at the fixed left edge, matched outcome retreats: the step
    // reports the halt sentinel, overwrites the cell, and moves nothing.
    let mut m = Machine::new(Tape::with_capacity(3));
    let inst = Instruction::new(
        false,
        State::new(true, Direction::Left, 0),
        State::new(false, Direction::Right, 0),
    );
    let next = m.machine_execute(&inst, 7);
    assert_eq!(next, 7);
    assert_eq!(m.head, 0);
    assert_eq!(m.tape.data, vec![true, false, false]);
    assert_eq!(m.tape.count, 3);
}

#[test]
fn left_edge_halt_on_mismatched_branch() {
    let mut m = Machine::new(Tape::from_seed(&b"1".to_vec()));
    let inst = Instruction::new(
        false,
        State::new(true, Direction::Right, 0),
        State::new(false, Direction::Left, 0),
    );
    let next = m.machine_execute(&inst, 1);
    assert_eq!(next, 1);
    assert_eq!(m.head, 0);
    assert_eq!(m.tape.data, vec![false]);
}

#[test]
fn out_of_range_next_halts_run() {
    // The table from the halt-termination scenario: on an all-false tape of
    // capacity 3 the first step matches, writes true, advances, and reports
    // the authored next index 2, which lies past the single-instruction
    // table, so the run halts there.
    let insts = vec![Instruction::new(
        false,
        State::new(true, Direction::Right, 2),
        State::new(false, Direction::Right, 0),
    )];
    let mut p = Program::new(Machine::new(Tape::with_capacity(3)), insts);
    let steps = p.run(10);
    assert_eq!(steps, 1);
    assert!(p.halted());
    assert_eq!(p.cur, 2);
    assert_eq!(p.machine.head, 1);
    assert_eq!(p.machine.tape.data, vec![true, false, false]);
}

#[test]
fn determinism_given_seed() {
    // Two runs built from the same seed string and the same table offer
    // identical (head, cell-prefix) observations after every step.
    let table = || {
        vec![
            Instruction::new(
                true,
                State::new(false, Direction::Right, 1),
                State::new(true, Direction::Right, 0),
            ),
            Instruction::new(
                true,
                State::new(true, Direction::Left, 0),
                State::new(false, Direction::Stay, 5),
            ),
        ]
    };
    let seed = b"011010".to_vec();
    let mut a = Program::new(Machine::new(Tape::from_seed(&seed)), table());
    let mut b = Program::new(Machine::new(Tape::from_seed(&seed)), table());
    assert_eq!(a.machine.observe(), b.machine.observe());
    for _ in 0..12 {
        let sa = a.step();
        let sb = b.step();
        assert_eq!(sa, sb);
        assert_eq!(a.machine.observe(), b.machine.observe());
        assert_eq!(a.cur, b.cur);
    }
}

#[test]
fn count_is_high_water_mark_not_final_head() {
    // Push the head out to position 4 (growing the tape), then retreat: the
    // high-water mark keeps the maximum position reached, not the final one.
    let mut m = Machine::new(Tape::with_capacity(3));
    let right = flip_right(0);
    for _ in 0..4 {
        m.machine_execute(&right, 1);
    }
    assert_eq!(m.head, 4);
    assert_eq!(m.tape.count, 4);
    let back = Instruction::new(
        false,
        State::new(true, Direction::Left, 0),
        State::new(true, Direction::Left, 0),
    );
    m.machine_execute(&back, 1);
    assert_eq!(m.head, 3);
    assert_eq!(m.tape.count, 4);
}

#[test]
fn observe_projects_prefix_up_to_count() {
    let m = Machine::new(Tape::from_seed(&b"10".to_vec()));
    let (head, cells) = m.observe();
    assert_eq!(head, 0);
    assert_eq!(cells, vec![true, false]);
}

#[test]
fn empty_table_is_halted_immediately() {
    let mut p = Program::new(Machine::new(Tape::with_capacity(3)), Vec::new());
    assert!(p.halted());
    let steps = p.run(5);
    assert_eq!(steps, 0);
    assert_eq!(p.cur, 0);
    assert_eq!(p.machine.head, 0);
}

#[test]
fn step_on_halted_program_does_nothing() {
    let insts = vec![flip_right(9)];
    let mut p = Program::new(Machine::new(Tape::with_capacity(1)), insts);
    let stepped = p.step();
    assert!(stepped);
    assert!(p.halted());
    let again = p.step();
    assert!(!again);
    assert_eq!(p.cur, 9);
    assert_eq!(p.machine.head, 1);
    assert_eq!(p.machine.tape.data, vec![true]);
}

#[test]
fn stay_direction_keeps_head_in_place() {
    let mut m = Machine::new(Tape::from_seed(&b"01".to_vec()));
    let inst = Instruction::new(
        false,
        State::new(true, Direction::Stay, 3),
        State::new(false, Direction::Stay, 4),
    );
    let next = m.machine_execute(&inst, 9);
    assert_eq!(next, 3);
    assert_eq!(m.head, 0);
    assert_eq!(m.tape.data, vec![true, true]);
    assert_eq!(m.tape.count, 2);
}
