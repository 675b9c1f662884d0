use vstd::prelude::*;

use crate::seek::backward_seek;
use crate::seek::forward_seek;
use crate::status::Status;

verus! {

/// The mathematical model of one engine's mutable state: the program with
/// its instruction pointer, the input cursor, the tape, the output sink,
/// and the two configured ceilings (0 means unbounded).
#[verifier::ext_equal]
pub ghost struct Core {
    pub program: Seq<char>,
    pub ip: int,
    pub input: Seq<u8>,
    pub inp: int,
    pub mem: Seq<u8>,
    pub mp: int,
    pub out: Seq<u8>,
    pub exec_limit: int,
    pub mem_limit: int,
}

impl Core {
    /// Well-formedness: the tape is never empty, both cursors are in
    /// bounds, the instruction pointer never passes one past the end, and
    /// a nonzero memory ceiling is respected.
    pub open spec fn wf(self) -> bool {
        &&& 1 <= self.mem.len()
        &&& 0 <= self.mp < self.mem.len()
        &&& 0 <= self.inp <= self.input.len()
        &&& 0 <= self.ip <= self.program.len()
        &&& 0 <= self.exec_limit
        &&& 0 <= self.mem_limit
        &&& (self.mem_limit > 0 ==> self.mem.len() <= self.mem_limit)
    }
}

/// The state of a freshly constructed engine: instruction pointer, input
/// cursor and data pointer at 0, a one-cell zeroed tape, and no output.
pub open spec fn initial_core(
    program: Seq<char>,
    input: Seq<u8>,
    exec_limit: int,
    mem_limit: int,
) -> Core {
    Core {
        program,
        ip: 0,
        input,
        inp: 0,
        mem: seq![0u8],
        mp: 0,
        out: Seq::empty(),
        exec_limit,
        mem_limit,
    }
}

/// How many cells a growth request adds: half the current tape length
/// plus one, clamped to the remaining headroom under a nonzero memory
/// ceiling (so 0 exactly when the ceiling is exhausted).
pub open spec fn grow_amount(c: Core) -> int {
    let base = c.mem.len() as int / 2 + 1;
    if c.mem_limit > 0 && c.mem.len() + base > c.mem_limit {
        c.mem_limit - c.mem.len()
    } else {
        base
    }
}

/// The core after one growth request: `grow_amount` fresh zero cells are
/// appended to the tape.
pub open spec fn grown(c: Core) -> Core {
    Core { mem: c.mem + Seq::new(grow_amount(c) as nat, |i: int| 0u8), ..c }
}

/// Effect of the move-right instruction: grows the tape first when the
/// data pointer would leave it, then advances the pointer; fails (with
/// the tape unchanged and the pointer not moved) when the memory ceiling
/// forbids the needed growth.
pub open spec fn spec_increment_pointer(c: Core) -> (Core, Result<Status, Status>) {
    if c.mp + 1 >= c.mem.len() {
        if grow_amount(c) == 0 {
            (c, Result::Err(Status::MemoryLimitExceeded))
        } else {
            (Core { mp: c.mp + 1, ..grown(c) }, Result::Ok(Status::PointerIncremented))
        }
    } else {
        (Core { mp: c.mp + 1, ..c }, Result::Ok(Status::PointerIncremented))
    }
}

/// Effect of the move-left instruction: fails at tape position 0,
/// otherwise retreats the data pointer by one.
pub open spec fn spec_decrement_pointer(c: Core) -> (Core, Result<Status, Status>) {
    if c.mp == 0 {
        (c, Result::Err(Status::PointerUnderflow))
    } else {
        (Core { mp: c.mp - 1, ..c }, Result::Ok(Status::PointerDecremented))
    }
}

/// Effect of the increment instruction: the current cell goes up by one,
/// wrapping 255 around to 0; the status reports whether it wrapped.
pub open spec fn spec_increment_byte(c: Core) -> (Core, Result<Status, Status>) {
    let v = c.mem[c.mp];
    if v < 255 {
        (
            Core { mem: c.mem.update(c.mp, (v + 1) as u8), ..c },
            Result::Ok(Status::ByteIncremented),
        )
    } else {
        (Core { mem: c.mem.update(c.mp, 0u8), ..c }, Result::Ok(Status::ByteWrappedToZero))
    }
}

/// Effect of the decrement instruction: the current cell goes down by
/// one, wrapping 0 around to 255; the status reports whether it wrapped.
pub open spec fn spec_decrement_byte(c: Core) -> (Core, Result<Status, Status>) {
    let v = c.mem[c.mp];
    if v > 0 {
        (
            Core { mem: c.mem.update(c.mp, (v - 1) as u8), ..c },
            Result::Ok(Status::ByteDecremented),
        )
    } else {
        (Core { mem: c.mem.update(c.mp, 255u8), ..c }, Result::Ok(Status::ByteWrappedToMax))
    }
}

/// Effect of the output instruction: the current cell is appended to the
/// output sink.
pub open spec fn spec_output_byte(c: Core) -> (Core, Result<Status, Status>) {
    (Core { out: c.out.push(c.mem[c.mp]), ..c }, Result::Ok(Status::ByteCopiedToOutput))
}

/// One read from the input cursor: past the end it yields the sentinel
/// 255 without advancing, otherwise the byte under the cursor, advancing
/// by one.
pub open spec fn spec_next_input_byte(c: Core) -> (Core, u8) {
    if c.inp >= c.input.len() {
        (c, 255u8)
    } else {
        (Core { inp: c.inp + 1, ..c }, c.input[c.inp])
    }
}

/// Effect of the input instruction: one byte is read from the input
/// cursor and stored in the current cell.
pub open spec fn spec_input_byte(c: Core) -> (Core, Result<Status, Status>) {
    let read = spec_next_input_byte(c);
    (
        Core { mem: read.0.mem.update(read.0.mp, read.1), ..read.0 },
        Result::Ok(Status::ByteCopiedFromInput),
    )
}

/// Effect of the loop-open instruction: on a zero cell the instruction
/// pointer seeks forward to the matching loop-close (failing at the last
/// program position if there is none); on a nonzero cell nothing moves.
pub open spec fn spec_handle_open_bracket(c: Core) -> (Core, Result<Status, Status>) {
    if c.mem[c.mp] == 0 {
        match forward_seek(c.program, c.ip, 0) {
            Some(j) => (Core { ip: j, ..c }, Result::Ok(Status::MatchingCloseFound)),
            None => (
                Core { ip: c.program.len() - 1, ..c },
                Result::Err(Status::UnmatchedOpenBracket),
            ),
        }
    } else {
        (c, Result::Ok(Status::OpenBracketSkipped))
    }
}

/// Effect of the loop-close instruction: on a nonzero cell the
/// instruction pointer seeks backward to the matching loop-open (failing
/// at position 0 if there is none); on a zero cell nothing moves.
pub open spec fn spec_handle_close_bracket(c: Core) -> (Core, Result<Status, Status>) {
    if c.mem[c.mp] != 0 {
        match backward_seek(c.program, c.ip, 0) {
            Some(j) => (Core { ip: j, ..c }, Result::Ok(Status::MatchingOpenFound)),
            None => (Core { ip: 0, ..c }, Result::Err(Status::UnmatchedCloseBracket)),
        }
    } else {
        (c, Result::Ok(Status::CloseBracketSkipped))
    }
}

/// Whether a character is one of the eight recognized instructions; any
/// other character is a comment that only advances the instruction
/// pointer.
pub open spec fn recognized(ch: char) -> bool {
    ch == '>' || ch == '<' || ch == '+' || ch == '-' || ch == '.' || ch == ',' || ch == '['
        || ch == ']'
}

/// Dispatch of one recognized instruction character to its handler's
/// effect.
pub open spec fn spec_dispatch(c: Core, ch: char) -> (Core, Result<Status, Status>) {
    if ch == '>' {
        spec_increment_pointer(c)
    } else if ch == '<' {
        spec_decrement_pointer(c)
    } else if ch == '+' {
        spec_increment_byte(c)
    } else if ch == '-' {
        spec_decrement_byte(c)
    } else if ch == '.' {
        spec_output_byte(c)
    } else if ch == ',' {
        spec_input_byte(c)
    } else if ch == '[' {
        spec_handle_open_bracket(c)
    } else {
        spec_handle_close_bracket(c)
    }
}

/// The model of one recorded snapshot: the tape trimmed to the high-water
/// mark, the three cursor positions, the output so far, and the outcome.
#[verifier::ext_equal]
pub ghost struct SnapModel {
    pub memory: Seq<u8>,
    pub memory_pointer: int,
    pub instruction_pointer: int,
    pub input_pointer: int,
    pub output: Seq<u8>,
    pub is_error: bool,
    pub status: Status,
}

/// The snapshot taken of core state `c` with high-water mark `mp_max`:
/// the tape is trimmed to positions `0 ..= mp_max`.
pub open spec fn snap_of(c: Core, mp_max: int, is_error: bool, status: Status) -> SnapModel {
    SnapModel {
        memory: c.mem.subrange(0, mp_max + 1),
        memory_pointer: c.mp,
        instruction_pointer: c.ip,
        input_pointer: c.inp,
        output: c.out,
        is_error,
        status,
    }
}

/// The run-level state machine: Running on entry, and one of the three
/// terminal states once the program ends, a handler fails, or the
/// execution ceiling is hit.
#[derive(Clone, Copy, Debug, PartialEq, Eq, Structural)]
pub enum Phase {
    Running,
    HaltedNormally,
    HaltedOnError,
    HaltedOnLimit,
}

/// The model of one whole run in flight: the engine core, the snapshots
/// recorded so far, the high-water mark of the data pointer, and the
/// run-level phase.
#[verifier::ext_equal]
pub ghost struct Machine {
    pub core: Core,
    pub snapshots: Seq<SnapModel>,
    pub mp_max: int,
    pub phase: Phase,
}

impl Machine {
    /// Well-formedness of a machine in flight.
    pub open spec fn wf(self) -> bool {
        &&& self.core.wf()
        &&& 0 <= self.mp_max < self.core.mem.len()
    }
}

/// The machine state at the start of a run on core `c`: no snapshots, a
/// zero high-water mark, and the Running phase.
pub open spec fn run_init(c: Core) -> Machine {
    Machine { core: c, snapshots: Seq::empty(), mp_max: 0, phase: Phase::Running }
}

/// One iteration of the run loop, as a total function on machine states
/// (halted states are fixpoints):
/// - past the end of the program the run halts normally, with no snapshot;
/// - with a nonzero execution ceiling already reached, one synthetic
///   error snapshot is recorded and the run halts on the limit;
/// - an unrecognized character only advances the instruction pointer;
/// - otherwise the instruction's handler runs, its snapshot (taken before
///   the instruction pointer advances past the instruction) is recorded,
///   and on failure the run halts with that error snapshot as its last.
///
/// The high-water mark rises exactly when a move-right leaves the data
/// pointer above it.
pub open spec fn step(m: Machine) -> Machine {
    if m.phase != Phase::Running {
        m
    } else if m.core.ip >= m.core.program.len() {
        Machine { phase: Phase::HaltedNormally, ..m }
    } else if m.core.exec_limit > 0 && m.snapshots.len() >= m.core.exec_limit {
        Machine {
            snapshots: m.snapshots.push(
                snap_of(m.core, m.mp_max, true, Status::ExecutionLimitExceeded),
            ),
            phase: Phase::HaltedOnLimit,
            ..m
        }
    } else {
        let ch = m.core.program[m.core.ip];
        if !recognized(ch) {
            Machine { core: Core { ip: m.core.ip + 1, ..m.core }, ..m }
        } else {
            let outcome = spec_dispatch(m.core, ch);
            let c2 = outcome.0;
            let mp_max2 = if ch == '>' && c2.mp > m.mp_max {
                c2.mp
            } else {
                m.mp_max
            };
            match outcome.1 {
                Result::Ok(st) => Machine {
                    core: Core { ip: c2.ip + 1, ..c2 },
                    snapshots: m.snapshots.push(snap_of(c2, mp_max2, false, st)),
                    mp_max: mp_max2,
                    phase: Phase::Running,
                },
                Result::Err(st) => Machine {
                    core: c2,
                    snapshots: m.snapshots.push(snap_of(c2, mp_max2, true, st)),
                    mp_max: mp_max2,
                    phase: Phase::HaltedOnError,
                },
            }
        }
    }
}

/// One iteration of the run loop preserves well-formedness: in
/// particular, the data pointer stays strictly inside the tape and the
/// instruction pointer never passes more than one position past the end
/// of the program, whatever instruction executed.
pub proof fn lemma_step_preserves_wf(m: Machine)
    requires
        m.wf(),
    ensures
        step(m).wf(),
{
    if m.phase == Phase::Running && m.core.ip < m.core.program.len() && !(m.core.exec_limit > 0
        && m.snapshots.len() >= m.core.exec_limit) {
        let ch = m.core.program[m.core.ip];
        if ch == '[' {
            crate::seek::lemma_forward_seek_in_bounds(m.core.program, m.core.ip, 0);
        }
        if ch == ']' {
            crate::seek::lemma_backward_seek_in_bounds(m.core.program, m.core.ip, 0);
        }
    }
}

/// Any number of iterations of the run loop preserves well-formedness.
pub proof fn lemma_steps_preserve_wf(m: Machine, n: nat)
    requires
        m.wf(),
    ensures
        steps(m, n).wf(),
    decreases n,
{
    if n > 0 {
        lemma_step_preserves_wf(m);
        lemma_steps_preserve_wf(step(m), (n - 1) as nat);
    }
}

/// `n` iterations of the run loop from `m`.
pub open spec fn steps(m: Machine, n: nat) -> Machine
    decreases n,
{
    if n == 0 {
        m
    } else {
        steps(step(m), (n - 1) as nat)
    }
}

/// The execution count a halted machine reports: the number of recorded
/// snapshots, except that the synthetic limit snapshot does not count as
/// a completed instruction.
pub open spec fn executions_of(m: Machine) -> int {
    if m.phase == Phase::HaltedOnLimit {
        m.snapshots.len() - 1
    } else {
        m.snapshots.len() as int
    }
}

/// Bracket resolution is idempotent at the instruction level: the
/// loop-open handler's new instruction pointer and its outcome are a
/// function of the program text, the current position and the current
/// cell value alone — re-running it from the same inputs yields the same
/// resulting position or the same failure.
pub proof fn lemma_open_bracket_deterministic(c1: Core, c2: Core)
    requires
        c1.program == c2.program,
        c1.ip == c2.ip,
        c1.mem[c1.mp] == c2.mem[c2.mp],
    ensures
        spec_handle_open_bracket(c1).0.ip == spec_handle_open_bracket(c2).0.ip,
        spec_handle_open_bracket(c1).1 == spec_handle_open_bracket(c2).1,
{
}

/// Bracket resolution is idempotent at the instruction level: the
/// loop-close handler's new instruction pointer and its outcome are a
/// function of the program text, the current position and the current
/// cell value alone — re-running it from the same inputs yields the same
/// resulting position or the same failure.
pub proof fn lemma_close_bracket_deterministic(c1: Core, c2: Core)
    requires
        c1.program == c2.program,
        c1.ip == c2.ip,
        c1.mem[c1.mp] == c2.mem[c2.mp],
    ensures
        spec_handle_close_bracket(c1).0.ip == spec_handle_close_bracket(c2).0.ip,
        spec_handle_close_bracket(c1).1 == spec_handle_close_bracket(c2).1,
{
}

/// The model of a run's product: the snapshot trace, the final output,
/// and the execution count.  (The elapsed-time field of a product is
/// measured from the wall clock and has no model.)
#[verifier::ext_equal]
pub ghost struct ProdModel {
    pub snapshots: Seq<SnapModel>,
    pub output: Seq<u8>,
    pub executions: int,
}

/// What `n` iterations of the run loop from `init` being a complete run
/// means: the machine has halted, `fin` is its final core state, and `p`
/// holds its snapshot trace, its output, and its execution count.
pub open spec fn complete_run(init: Machine, n: nat, fin: Core, p: ProdModel) -> bool {
    let m = steps(init, n);
    &&& m.phase != Phase::Running
    &&& fin == m.core
    &&& p.snapshots == m.snapshots
    &&& p.output == m.core.out
    &&& p.executions == executions_of(m)
}

/// Appending one iteration: `n + 1` iterations are `n` iterations
/// followed by one.
pub proof fn lemma_steps_snoc(m: Machine, n: nat)
    ensures
        steps(m, n + 1) == step(steps(m, n)),
    decreases n,
{
    if n == 0 {
        assert(steps(m, 1) == steps(step(m), 0));
    } else {
        lemma_steps_snoc(step(m), (n - 1) as nat);
        assert(steps(m, n + 1) == steps(step(m), (n + 1 - 1) as nat));
        assert((n + 1 - 1) as nat == ((n - 1) as nat) + 1);
        assert(steps(m, n) == steps(step(m), (n - 1) as nat));
    }
}

/// Running zero instructions: from any configuration whose program is
/// empty, every number of iterations leaves the snapshot trace empty and
/// the output untouched, and any positive number of iterations has halted
/// the machine normally.
pub proof fn lemma_empty_program_run(init: Machine, n: nat)
    requires
        init.phase == Phase::Running,
        0 <= init.core.ip,
        init.core.program.len() == 0,
        init.snapshots.len() == 0,
    ensures
        steps(init, n).snapshots.len() == 0,
        steps(init, n).core.out == init.core.out,
        n > 0 ==> steps(init, n).phase == Phase::HaltedNormally,
    decreases n,
{
    if n > 0 {
        let halted = step(init);
        assert(halted.phase == Phase::HaltedNormally);
        lemma_halted_is_fixpoint(halted, (n - 1) as nat);
    }
}

/// A halted machine is a fixpoint of the run loop.
pub proof fn lemma_halted_is_fixpoint(m: Machine, n: nat)
    requires
        m.phase != Phase::Running,
    ensures
        steps(m, n) == m,
    decreases n,
{
    if n > 0 {
        lemma_halted_is_fixpoint(step(m), (n - 1) as nat);
    }
}

} // verus!
