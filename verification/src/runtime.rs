use vstd::prelude::*;
use vstd::string::StrSliceExecFns;

use crate::clock;
use crate::model::complete_run;
use crate::model::grow_amount;
use crate::model::grown;
use crate::model::initial_core;
use crate::model::lemma_steps_snoc;
use crate::model::run_init;
use crate::model::snap_of;
use crate::model::spec_decrement_byte;
use crate::model::spec_decrement_pointer;
use crate::model::spec_handle_close_bracket;
use crate::model::spec_handle_open_bracket;
use crate::model::spec_increment_byte;
use crate::model::spec_increment_pointer;
use crate::model::spec_input_byte;
use crate::model::spec_next_input_byte;
use crate::model::spec_output_byte;
use crate::model::steps;
use crate::model::Core;
use crate::model::Machine;
use crate::model::Phase;
use crate::model::ProdModel;
use crate::model::SnapModel;
use crate::seek::backward_seek;
use crate::seek::forward_seek;
use crate::status::Status;

verus! {

/// An immutable capture of the interpreter state taken after one
/// executed instruction: the tape trimmed to the high-water mark of the
/// data pointer, the three cursor positions, a copy of the output so
/// far, and the instruction's outcome.
pub struct RuntimeSnapshot {
    pub memory: Vec<u8>,
    pub memory_pointer: usize,
    pub instruction_pointer: usize,
    pub input_pointer: usize,
    pub output: Vec<u8>,
    pub is_error: bool,
    pub status: Status,
}

impl View for RuntimeSnapshot {
    type V = SnapModel;

    open spec fn view(&self) -> SnapModel {
        SnapModel {
            memory: self.memory@,
            memory_pointer: self.memory_pointer as int,
            instruction_pointer: self.instruction_pointer as int,
            input_pointer: self.input_pointer as int,
            output: self.output@,
            is_error: self.is_error,
            status: self.status,
        }
    }
}

impl RuntimeSnapshot {
    /// Captures the runtime's state, trimming the tape copy to positions
    /// `0 ..= memory_pointer_max`.
    pub fn new(
        runtime: &Runtime,
        memory_pointer_max: usize,
        is_error: bool,
        status: Status,
    ) -> (s: RuntimeSnapshot)
        requires
            (memory_pointer_max as int) < runtime@.mem.len(),
        ensures
            s@ == snap_of(runtime@, memory_pointer_max as int, is_error, status),
    {
        let _tape_len = runtime.memory.len();
        let s = RuntimeSnapshot {
            memory: prefix_copy(&runtime.memory, memory_pointer_max + 1),
            memory_pointer: runtime.memory_pointer,
            instruction_pointer: runtime.instruction_pointer,
            input_pointer: runtime.input_pointer,
            output: clone_bytes(&runtime.output),
            is_error,
            status,
        };
        proof {
            assert(s@ =~= snap_of(runtime@, memory_pointer_max as int, is_error, status));
        }
        s
    }

    /// The human-readable status/cause string recorded in this snapshot.
    pub fn message(&self) -> &'static str {
        self.status.message()
    }
}

/// The result of one whole run: the chronological snapshot trace, the
/// final output, the count of instructions actually executed, and the
/// elapsed wall time in nanoseconds.
pub struct RuntimeProduct {
    pub snapshots: Vec<RuntimeSnapshot>,
    pub output: Vec<u8>,
    pub executions: usize,
    pub time: u64,
}

impl View for RuntimeProduct {
    type V = ProdModel;

    open spec fn view(&self) -> ProdModel {
        ProdModel {
            snapshots: snaps_of(self.snapshots@),
            output: self.output@,
            executions: self.executions as int,
        }
    }
}

impl RuntimeProduct {
    /// Packs the parts of a finished run into a product.
    pub fn new(
        snapshots: Vec<RuntimeSnapshot>,
        output: Vec<u8>,
        executions: usize,
        time: u64,
    ) -> (r: RuntimeProduct)
        ensures
            r.snapshots == snapshots,
            r.output == output,
            r.executions == executions,
            r.time == time,
    {
        RuntimeProduct { snapshots, output, executions, time }
    }
}

/// The model of a sequence of recorded snapshots.
pub open spec fn snaps_of(s: Seq<RuntimeSnapshot>) -> Seq<SnapModel> {
    s.map(|i: int, x: RuntimeSnapshot| x@)
}

proof fn lemma_snaps_of_push(s: Seq<RuntimeSnapshot>, x: RuntimeSnapshot)
    ensures
        snaps_of(s.push(x)) == snaps_of(s).push(x@),
{
    assert(snaps_of(s.push(x)) =~= snaps_of(s).push(x@));
}

/// The interpreter engine: the program with its instruction pointer, the
/// input cursor, the growable tape, the output sink, and the two
/// configured ceilings (0 means unbounded).
pub struct Runtime {
    instructions: Vec<char>,
    instruction_pointer: usize,
    input: Vec<u8>,
    input_pointer: usize,
    memory: Vec<u8>,
    memory_pointer: usize,
    output: Vec<u8>,
    execution_limit: usize,
    memory_limit: usize,
}

impl View for Runtime {
    type V = Core;

    closed spec fn view(&self) -> Core {
        Core {
            program: self.instructions@,
            ip: self.instruction_pointer as int,
            input: self.input@,
            inp: self.input_pointer as int,
            mem: self.memory@,
            mp: self.memory_pointer as int,
            out: self.output@,
            exec_limit: self.execution_limit as int,
            mem_limit: self.memory_limit as int,
        }
    }
}

/// A copy of the first `n` bytes of `v`.
fn prefix_copy(v: &Vec<u8>, n: usize) -> (r: Vec<u8>)
    requires
        n <= v.len(),
    ensures
        r@ == v@.subrange(0, n as int),
{
    let mut r: Vec<u8> = Vec::new();
    let mut i: usize = 0;
    while i < n
        invariant
            i <= n <= v@.len(),
            r@ == v@.subrange(0, i as int),
        decreases n - i,
    {
        r.push(v[i]);
        i += 1;
        proof {
            assert(r@ =~= v@.subrange(0, i as int));
        }
    }
    r
}

/// A copy of all of `v`.
fn clone_bytes(v: &Vec<u8>) -> (r: Vec<u8>)
    ensures
        r@ == v@,
{
    let r = prefix_copy(v, v.len());
    proof {
        assert(v@.subrange(0, v@.len() as int) =~= v@);
    }
    r
}

/// The characters of `s`, decoded up front into a random-access
/// sequence.
fn decode_chars(s: &String) -> (r: Vec<char>)
    ensures
        r@ == s@,
{
    let n = s.as_str().unicode_len();
    let mut r: Vec<char> = Vec::new();
    let mut i: usize = 0;
    while i < n
        invariant
            i <= n,
            n == s@.len(),
            r@ == s@.subrange(0, i as int),
        decreases n - i,
    {
        let c = s.as_str().get_char(i);
        r.push(c);
        i += 1;
        proof {
            assert(r@ =~= s@.subrange(0, i as int));
        }
    }
    proof {
        assert(r@ =~= s@);
    }
    r
}

impl Runtime {
    /// A fresh engine with both ceilings unbounded.
    pub fn new(instructions: String, input: Vec<u8>) -> (r: Runtime)
        ensures
            r@ == initial_core(instructions@, input@, 0, 0),
            r@.wf(),
    {
        Runtime::with_limits(instructions, input, 0, 0)
    }

    /// A fresh engine: instruction pointer, input cursor and data pointer
    /// at 0, a one-cell zeroed tape, no output, and the given ceilings
    /// (0 means unbounded).
    pub fn with_limits(
        instructions: String,
        input: Vec<u8>,
        execution_limit: usize,
        memory_limit: usize,
    ) -> (r: Runtime)
        ensures
            r@ == initial_core(
                instructions@,
                input@,
                execution_limit as int,
                memory_limit as int,
            ),
            r@.wf(),
    {
        let program = decode_chars(&instructions);
        let mut memory: Vec<u8> = Vec::new();
        memory.push(0u8);
        let r = Runtime {
            instructions: program,
            instruction_pointer: 0,
            input,
            input_pointer: 0,
            memory,
            memory_pointer: 0,
            output: Vec::new(),
            execution_limit,
            memory_limit,
        };
        proof {
            assert(r@ =~= initial_core(
                instructions@,
                input@,
                execution_limit as int,
                memory_limit as int,
            ));
        }
        r
    }

    /// Grows the tape by half its current length plus one cell, clamped
    /// to the headroom under a nonzero memory ceiling; all new cells are
    /// zero.  Returns how many cells were added (0 exactly when the
    /// ceiling is exhausted).
    pub fn expand_memory(&mut self) -> (r: usize)
        requires
            old(self)@.wf(),
        ensures
            final(self)@.wf(),
            r == grow_amount(old(self)@),
            final(self)@ == grown(old(self)@),
    {
        let mut additional: usize = self.memory.len() / 2 + 1;
        if self.memory_limit > 0 && additional > self.memory_limit - self.memory.len() {
            additional = self.memory_limit - self.memory.len();
        }
        assert(additional as int == grow_amount(self@));
        let mut i: usize = 0;
        while i < additional
            invariant
                i <= additional,
                self@ == (Core { mem: self@.mem, ..old(self)@ }),
                self@.mem =~= old(self)@.mem + Seq::new(i as nat, |k: int| 0u8),
            decreases additional - i,
        {
            self.memory.push(0u8);
            i += 1;
            proof {
                assert(self@.mem =~= old(self)@.mem + Seq::new(i as nat, |k: int| 0u8));
            }
        }
        proof {
            assert(self@ =~= grown(old(self)@));
        }
        additional
    }

    /// One read from the input cursor: past the end it yields the
    /// sentinel 255 without advancing, otherwise the byte under the
    /// cursor, advancing by one.
    pub fn next_input_byte(&mut self) -> (r: u8)
        requires
            old(self)@.wf(),
        ensures
            final(self)@.wf(),
            final(self)@ == spec_next_input_byte(old(self)@).0,
            r == spec_next_input_byte(old(self)@).1,
    {
        if self.input_pointer >= self.input.len() {
            return 255;
        }
        let result = self.input[self.input_pointer];
        self.input_pointer += 1;
        result
    }

    /// The move-right instruction: grows the tape first if needed, then
    /// advances the data pointer; fails, leaving the state unchanged,
    /// when the memory ceiling forbids the needed growth.
    pub fn increment_pointer(&mut self) -> (r: Result<Status, Status>)
        requires
            old(self)@.wf(),
        ensures
            final(self)@.wf(),
            final(self)@ == spec_increment_pointer(old(self)@).0,
            r == spec_increment_pointer(old(self)@).1,
    {
        if self.memory_pointer + 1 >= self.memory.len() {
            if self.expand_memory() == 0 {
                proof {
                    assert(self@ =~= old(self)@);
                }
                return Err(Status::MemoryLimitExceeded);
            }
        }
        self.memory_pointer += 1;
        Ok(Status::PointerIncremented)
    }

    /// The move-left instruction: fails at tape position 0, otherwise
    /// retreats the data pointer by one.
    pub fn decrement_pointer(&mut self) -> (r: Result<Status, Status>)
        requires
            old(self)@.wf(),
        ensures
            final(self)@.wf(),
            final(self)@ == spec_decrement_pointer(old(self)@).0,
            r == spec_decrement_pointer(old(self)@).1,
    {
        if self.memory_pointer == 0 {
            return Err(Status::PointerUnderflow);
        }
        self.memory_pointer -= 1;
        Ok(Status::PointerDecremented)
    }

    /// The increment instruction: the current cell goes up by one,
    /// wrapping 255 around to 0; never fails.
    pub fn increment_byte(&mut self) -> (r: Result<Status, Status>)
        requires
            old(self)@.wf(),
        ensures
            final(self)@.wf(),
            final(self)@ == spec_increment_byte(old(self)@).0,
            r == spec_increment_byte(old(self)@).1,
    {
        let v = self.memory[self.memory_pointer];
        if v < 255 {
            self.memory[self.memory_pointer] = v + 1;
            Ok(Status::ByteIncremented)
        } else {
            self.memory[self.memory_pointer] = 0;
            Ok(Status::ByteWrappedToZero)
        }
    }

    /// The decrement instruction: the current cell goes down by one,
    /// wrapping 0 around to 255; never fails.
    pub fn decrement_byte(&mut self) -> (r: Result<Status, Status>)
        requires
            old(self)@.wf(),
        ensures
            final(self)@.wf(),
            final(self)@ == spec_decrement_byte(old(self)@).0,
            r == spec_decrement_byte(old(self)@).1,
    {
        let v = self.memory[self.memory_pointer];
        if v > 0 {
            self.memory[self.memory_pointer] = v - 1;
            Ok(Status::ByteDecremented)
        } else {
            self.memory[self.memory_pointer] = 255;
            Ok(Status::ByteWrappedToMax)
        }
    }

    /// The output instruction: appends the current cell to the output
    /// sink; never fails.
    pub fn output_byte(&mut self) -> (r: Result<Status, Status>)
        requires
            old(self)@.wf(),
        ensures
            final(self)@.wf(),
            final(self)@ == spec_output_byte(old(self)@).0,
            r == spec_output_byte(old(self)@).1,
    {
        let this_byte = self.memory[self.memory_pointer];
        self.output.push(this_byte);
        Ok(Status::ByteCopiedToOutput)
    }

    /// The input instruction: reads one byte from the input cursor (the
    /// sentinel 255 once the input is exhausted) into the current cell;
    /// never fails.
    pub fn input_byte(&mut self) -> (r: Result<Status, Status>)
        requires
            old(self)@.wf(),
        ensures
            final(self)@.wf(),
            final(self)@ == spec_input_byte(old(self)@).0,
            r == spec_input_byte(old(self)@).1,
    {
        let b = self.next_input_byte();
        self.memory[self.memory_pointer] = b;
        Ok(Status::ByteCopiedFromInput)
    }

    /// The loop-open instruction: on a zero cell, seeks forward to the
    /// matching loop-close (properly nested), failing with the
    /// instruction pointer on the last program position if there is
    /// none; on a nonzero cell, does nothing.
    pub fn handle_open_bracket(&mut self) -> (r: Result<Status, Status>)
        requires
            old(self)@.wf(),
            old(self)@.ip < old(self)@.program.len(),
        ensures
            final(self)@.wf(),
            final(self)@.ip < old(self)@.program.len(),
            final(self)@ == spec_handle_open_bracket(old(self)@).0,
            r == spec_handle_open_bracket(old(self)@).1,
    {
        if self.memory[self.memory_pointer] == 0 {
            let mut open_count: usize = 0;
            loop
                invariant
                    self@.wf(),
                    self@ == (Core { ip: self@.ip, ..old(self)@ }),
                    old(self)@.ip <= self@.ip < self@.program.len(),
                    open_count <= self@.ip - old(self)@.ip,
                    forward_seek(old(self)@.program, old(self)@.ip, 0) == forward_seek(
                        self@.program,
                        self@.ip,
                        open_count as nat,
                    ),
                    old(self)@.mem[old(self)@.mp] == 0,
                decreases self@.program.len() - self@.ip,
            {
                let prog_len = self.instructions.len();
                if self.instruction_pointer + 1 >= prog_len {
                    return Err(Status::UnmatchedOpenBracket);
                }
                self.instruction_pointer += 1;
                let ch = self.instructions[self.instruction_pointer];
                if ch == '[' {
                    open_count += 1;
                } else if ch == ']' {
                    if open_count > 0 {
                        open_count -= 1;
                    } else {
                        return Ok(Status::MatchingCloseFound);
                    }
                }
            }
        } else {
            Ok(Status::OpenBracketSkipped)
        }
    }

    /// The loop-close instruction: on a nonzero cell, seeks backward to
    /// the matching loop-open (properly nested), failing with the
    /// instruction pointer at position 0 if there is none; on a zero
    /// cell, does nothing.
    pub fn handle_close_bracket(&mut self) -> (r: Result<Status, Status>)
        requires
            old(self)@.wf(),
        ensures
            final(self)@.wf(),
            final(self)@.ip <= old(self)@.ip,
            final(self)@ == spec_handle_close_bracket(old(self)@).0,
            r == spec_handle_close_bracket(old(self)@).1,
    {
        if self.memory[self.memory_pointer] != 0 {
            let mut close_count: usize = 0;
            loop
                invariant
                    self@.wf(),
                    self@ == (Core { ip: self@.ip, ..old(self)@ }),
                    0 <= self@.ip <= old(self)@.ip,
                    close_count <= old(self)@.ip - self@.ip,
                    backward_seek(old(self)@.program, old(self)@.ip, 0) == backward_seek(
                        self@.program,
                        self@.ip,
                        close_count as nat,
                    ),
                    old(self)@.mem[old(self)@.mp] != 0,
                decreases self@.ip,
            {
                if self.instruction_pointer == 0 {
                    return Err(Status::UnmatchedCloseBracket);
                }
                self.instruction_pointer -= 1;
                let ch = self.instructions[self.instruction_pointer];
                if ch == ']' {
                    close_count += 1;
                } else if ch == '[' {
                    if close_count > 0 {
                        close_count -= 1;
                    } else {
                        return Ok(Status::MatchingOpenFound);
                    }
                }
            }
        } else {
            Ok(Status::CloseBracketSkipped)
        }
    }

    /// Runs the program to completion or to a halt condition.
    ///
    /// The returned product is exactly what iterating the run-loop
    /// specification [`crate::model::step`] from the initial machine
    /// state yields, for some number of iterations at which the machine
    /// has halted: the chronological snapshot trace, the final output,
    /// and the execution count (the synthetic limit snapshot is not
    /// counted as a completed instruction).  The elapsed-time field is
    /// measured from the wall clock and nothing is promised of it.
    pub fn run(&mut self) -> (r: RuntimeProduct)
        requires
            old(self)@.wf(),
        ensures
            final(self)@.wf(),
            exists|n: nat| #[trigger] complete_run(run_init(old(self)@), n, final(self)@, r@),
            old(self)@.program.len() == 0 ==> r@.snapshots.len() == 0 && r@.output == old(
                self,
            )@.out && r@.executions == 0,
    {
        let start = clock::precise_time_ns();

        let mut snapshots: Vec<RuntimeSnapshot> = Vec::new();
        let mut memory_pointer_max: usize = 0;

        let ghost init = run_init(old(self)@);
        let ghost mut steps_taken: nat = 0;

        loop
            invariant_except_break
                (steps(init, steps_taken) == Machine {
                    core: self@,
                    snapshots: snaps_of(snapshots@),
                    mp_max: memory_pointer_max as int,
                    phase: Phase::Running,
                }),
            invariant
                init == run_init(old(self)@),
                self@.wf(),
                0 <= memory_pointer_max < self@.mem.len(),
                self@.program == init.core.program,
                self@.exec_limit == init.core.exec_limit,
                self@.exec_limit > 0 ==> snapshots@.len() <= self@.exec_limit,
            ensures
                ({
                    let m = steps(init, steps_taken);
                    &&& m.core == self@
                    &&& m.snapshots == snaps_of(snapshots@)
                    &&& m.mp_max == memory_pointer_max as int
                    &&& (m.phase == Phase::HaltedNormally || m.phase == Phase::HaltedOnError)
                }),
            decreases
                    (if self@.exec_limit > 0 {
                        self@.exec_limit + 1 - snapshots@.len()
                    } else {
                        usize::MAX + 2 - snapshots@.len()
                    }),
                    self@.program.len() - self@.ip,
        {
            let snap_count = snapshots.len();

            if !(self.instruction_pointer < self.instructions.len()) {
                proof {
                    lemma_steps_snoc(init, steps_taken);
                    steps_taken = steps_taken + 1;
                }
                break;
            }

            // if the maximum number of instructions have already been stored
            if self.execution_limit > 0 && snap_count >= self.execution_limit {
                let limit_snap = RuntimeSnapshot::new(
                    self,
                    memory_pointer_max,
                    true,
                    Status::ExecutionLimitExceeded,
                );
                let ghost snaps_before = snapshots@;
                snapshots.push(limit_snap);
                proof {
                    lemma_steps_snoc(init, steps_taken);
                    lemma_snaps_of_push(snaps_before, limit_snap);
                    steps_taken = steps_taken + 1;
                    assert(steps(init, steps_taken) =~= (Machine {
                        core: self@,
                        snapshots: snaps_of(snapshots@),
                        mp_max: memory_pointer_max as int,
                        phase: Phase::HaltedOnLimit,
                    }));
                }

                // return early, subtract one from execution count to
                // account for the refusal snapshot
                let executions = snapshots.len() - 1;
                let elapsed = elapsed_since(start);
                let output = clone_bytes(&self.output);
                let product = RuntimeProduct::new(snapshots, output, executions, elapsed);
                proof {
                    assert(complete_run(init, steps_taken, self@, product@));
                }
                return product;
            }

            let ch = self.instructions[self.instruction_pointer];
            let mut result: Option<Result<Status, Status>> = None;
            if ch == '>' {
                result = Some(self.increment_pointer());
                if self.memory_pointer > memory_pointer_max {
                    memory_pointer_max = self.memory_pointer;
                }
            } else if ch == '<' {
                result = Some(self.decrement_pointer());
            } else if ch == '+' {
                result = Some(self.increment_byte());
            } else if ch == '-' {
                result = Some(self.decrement_byte());
            } else if ch == '.' {
                result = Some(self.output_byte());
            } else if ch == ',' {
                result = Some(self.input_byte());
            } else if ch == '[' {
                result = Some(self.handle_open_bracket());
            } else if ch == ']' {
                result = Some(self.handle_close_bracket());
            }

            match result {
                Some(Ok(st)) => {
                    let snap = RuntimeSnapshot::new(self, memory_pointer_max, false, st);
                    let ghost snaps_before = snapshots@;
                    snapshots.push(snap);
                    proof {
                        lemma_snaps_of_push(snaps_before, snap);
                    }
                },
                Some(Err(st)) => {
                    let snap = RuntimeSnapshot::new(self, memory_pointer_max, true, st);
                    let ghost snaps_before = snapshots@;
                    snapshots.push(snap);
                    proof {
                        lemma_steps_snoc(init, steps_taken);
                        lemma_snaps_of_push(snaps_before, snap);
                        steps_taken = steps_taken + 1;
                        assert(steps(init, steps_taken) =~= (Machine {
                            core: self@,
                            snapshots: snaps_of(snapshots@),
                            mp_max: memory_pointer_max as int,
                            phase: Phase::HaltedOnError,
                        }));
                    }
                    // all errors are fatal
                    break;
                },
                None => {},
            }

            self.instruction_pointer += 1;
            proof {
                lemma_steps_snoc(init, steps_taken);
                steps_taken = steps_taken + 1;
                assert(steps(init, steps_taken) =~= (Machine {
                    core: self@,
                    snapshots: snaps_of(snapshots@),
                    mp_max: memory_pointer_max as int,
                    phase: Phase::Running,
                }));
            }
        }

        let executions = snapshots.len();
        let elapsed = elapsed_since(start);
        let output = clone_bytes(&self.output);
        let product = RuntimeProduct::new(snapshots, output, executions, elapsed);
        proof {
            assert(complete_run(init, steps_taken, self@, product@));
            if init.core.program.len() == 0 {
                crate::model::lemma_empty_program_run(init, steps_taken);
            }
        }
        product
    }
}

/// The wall time elapsed since `start`, in nanoseconds; 0 if the counter
/// appears to have moved backwards.
fn elapsed_since(start: u64) -> u64 {
    let end = clock::precise_time_ns();
    if end >= start {
        end - start
    } else {
        0
    }
}

} // verus!
