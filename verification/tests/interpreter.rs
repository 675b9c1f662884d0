use tape_runtime::Runtime;
use tape_runtime::RuntimeProduct;
use tape_runtime::Status;

fn run_program(program: &str, input: Vec<u8>) -> RuntimeProduct {
    let mut runtime = Runtime::new(program.to_string(), input);
    runtime.run()
}

fn run_with_limits(
    program: &str,
    input: Vec<u8>,
    execution_limit: usize,
    memory_limit: usize,
) -> RuntimeProduct {
    let mut runtime = Runtime::with_limits(program.to_string(), input, execution_limit, memory_limit);
    runtime.run()
}

fn statuses(product: &RuntimeProduct) -> Vec<Status> {
    product.snapshots.iter().map(|s| s.status).collect()
}

#[test]
fn empty_program_yields_nothing() {
    let product = run_program("", vec![]);
    assert_eq!(product.snapshots.len(), 0);
    assert_eq!(product.output, Vec::<u8>::new());
    assert_eq!(product.executions, 0);
}

#[test]
fn empty_program_yields_nothing_under_any_limits() {
    for (execution_limit, memory_limit) in [(0, 0), (1, 1), (7, 3), (0, 5), (2, 0)] {
        let product = run_with_limits("", vec![1, 2, 3], execution_limit, memory_limit);
        assert_eq!(product.snapshots.len(), 0);
        assert_eq!(product.output, Vec::<u8>::new());
        assert_eq!(product.executions, 0);
    }
}

#[test]
fn increment_then_output() {
    let product = run_program("+++.", vec![]);
    assert_eq!(product.output, vec![3]);
    assert_eq!(product.snapshots.len(), 4);
    assert!(product.snapshots.iter().all(|s| !s.is_error));
    assert_eq!(
        statuses(&product),
        vec![
            Status::ByteIncremented,
            Status::ByteIncremented,
            Status::ByteIncremented,
            Status::ByteCopiedToOutput,
        ]
    );
    assert_eq!(product.executions, 4);
}

#[test]
fn decrement_wraps_to_255() {
    let product = run_program("-", vec![]);
    assert_eq!(product.snapshots.len(), 1);
    let snapshot = &product.snapshots[0];
    assert!(!snapshot.is_error);
    assert_eq!(snapshot.status, Status::ByteWrappedToMax);
    assert_eq!(snapshot.memory, vec![255]);
    assert_eq!(snapshot.message(), "wrapped overflow byte back to 0xFF");
}

#[test]
fn increment_wraps_to_zero() {
    let product = run_program(&"+".repeat(256), vec![]);
    assert_eq!(product.snapshots.len(), 256);
    let last = &product.snapshots[255];
    assert!(!last.is_error);
    assert_eq!(last.status, Status::ByteWrappedToZero);
    assert_eq!(last.memory, vec![0]);
}

#[test]
fn pointer_underflow_is_fatal() {
    let product = run_program("<", vec![]);
    assert_eq!(product.snapshots.len(), 1);
    let snapshot = &product.snapshots[0];
    assert!(snapshot.is_error);
    assert_eq!(snapshot.status, Status::PointerUnderflow);
    assert_eq!(snapshot.message(), "can't decrement pointer sub-0!");
    assert_eq!(product.output, Vec::<u8>::new());
}

#[test]
fn loop_skipped_when_cell_is_zero() {
    let product = run_program("[+]", vec![]);
    // the seek lands on the matching close bracket, and the run loop then
    // advances past it, so nothing else executes
    assert_eq!(statuses(&product), vec![Status::MatchingCloseFound]);
    assert_eq!(product.snapshots[0].instruction_pointer, 2);
    // the increment inside the loop never runs
    let last = product.snapshots.last().unwrap();
    assert_eq!(last.memory, vec![0]);
    assert_eq!(product.executions, 1);
}

#[test]
fn loop_runs_while_nonzero() {
    let product = run_program("+[-]", vec![]);
    assert_eq!(
        statuses(&product),
        vec![
            Status::ByteIncremented,
            Status::OpenBracketSkipped,
            Status::ByteDecremented,
            Status::CloseBracketSkipped,
        ]
    );
    let decrements = product
        .snapshots
        .iter()
        .filter(|s| s.status == Status::ByteDecremented)
        .count();
    assert_eq!(decrements, 1);
    let last = product.snapshots.last().unwrap();
    assert_eq!(last.memory[0], 0);
}

#[test]
fn echo_program_emits_the_sentinel() {
    // After the input is exhausted, reads keep yielding the sentinel 255,
    // which is itself nonzero, so the echo loop never ends on its own: an
    // execution ceiling cuts the run right after the sentinel was echoed.
    let product = run_with_limits(",[.,]", vec![65, 66], 10, 0);
    assert_eq!(product.output, vec![65, 66, 255]);
    let last = product.snapshots.last().unwrap();
    assert!(last.is_error);
    assert_eq!(last.status, Status::ExecutionLimitExceeded);
}

#[test]
fn input_reads_sentinel_when_exhausted() {
    let product = run_program(",", vec![]);
    assert_eq!(statuses(&product), vec![Status::ByteCopiedFromInput]);
    assert_eq!(product.snapshots[0].memory, vec![255]);
    assert_eq!(product.snapshots[0].input_pointer, 0);
}

#[test]
fn input_pointer_advances_only_within_input() {
    let product = run_program(",,,", vec![9]);
    assert_eq!(product.snapshots.len(), 3);
    assert_eq!(product.snapshots[0].memory, vec![9]);
    assert_eq!(product.snapshots[0].input_pointer, 1);
    assert_eq!(product.snapshots[1].memory, vec![255]);
    assert_eq!(product.snapshots[1].input_pointer, 1);
    assert_eq!(product.snapshots[2].input_pointer, 1);
}

#[test]
fn execution_limit_is_enforced() {
    let product = run_with_limits("+++++", vec![], 2, 0);
    assert_eq!(product.snapshots.len(), 3);
    assert!(!product.snapshots[0].is_error);
    assert!(!product.snapshots[1].is_error);
    let last = &product.snapshots[2];
    assert!(last.is_error);
    assert_eq!(last.status, Status::ExecutionLimitExceeded);
    assert_eq!(
        last.message(),
        "execution terminated by engine (instruction limit exceeded)"
    );
    // the synthetic snapshot is not counted as a completed instruction
    assert_eq!(product.executions, 2);
}

#[test]
fn memory_limit_is_enforced() {
    let product = run_with_limits(">", vec![], 0, 1);
    assert_eq!(product.snapshots.len(), 1);
    let snapshot = &product.snapshots[0];
    assert!(snapshot.is_error);
    assert_eq!(snapshot.status, Status::MemoryLimitExceeded);
    // no cell beyond the first was ever allocated
    assert_eq!(snapshot.memory, vec![0]);
    assert_eq!(snapshot.memory_pointer, 0);
    assert_eq!(product.executions, 1);
}

#[test]
fn tape_growth_is_clamped_to_the_memory_ceiling() {
    // with a ceiling of 3 cells the first two moves grow the tape (the
    // second growth request is clamped to the remaining headroom), and
    // the third finds the ceiling exhausted
    let product = run_with_limits(">>>", vec![], 0, 3);
    assert_eq!(
        statuses(&product),
        vec![
            Status::PointerIncremented,
            Status::PointerIncremented,
            Status::MemoryLimitExceeded,
        ]
    );
    let last = product.snapshots.last().unwrap();
    assert!(last.is_error);
    assert_eq!(last.memory, vec![0, 0, 0]);
    assert_eq!(last.memory_pointer, 2);
    assert_eq!(product.executions, 3);
}

#[test]
fn tape_grows_to_the_right() {
    let product = run_program(">>>>", vec![]);
    assert_eq!(product.snapshots.len(), 4);
    assert!(product.snapshots.iter().all(|s| !s.is_error));
    let last = product.snapshots.last().unwrap();
    // the snapshot copy is trimmed to the high-water mark
    assert_eq!(last.memory, vec![0, 0, 0, 0, 0]);
    assert_eq!(last.memory_pointer, 4);
}

#[test]
fn unmatched_open_bracket_is_fatal() {
    let product = run_program("[", vec![]);
    assert_eq!(product.snapshots.len(), 1);
    let snapshot = &product.snapshots[0];
    assert!(snapshot.is_error);
    assert_eq!(snapshot.status, Status::UnmatchedOpenBracket);
    assert_eq!(snapshot.instruction_pointer, 0);
}

#[test]
fn unmatched_close_bracket_is_fatal() {
    let product = run_program("+]", vec![]);
    assert_eq!(
        statuses(&product),
        vec![Status::ByteIncremented, Status::UnmatchedCloseBracket]
    );
    let last = product.snapshots.last().unwrap();
    assert!(last.is_error);
    assert_eq!(last.instruction_pointer, 0);
}

#[test]
fn nested_loops_resolve_to_the_outermost_match() {
    let product = run_program("[[-]+]", vec![]);
    assert_eq!(statuses(&product), vec![Status::MatchingCloseFound]);
    // the seek skips the whole nested body
    assert_eq!(product.snapshots[0].instruction_pointer, 5);
}

#[test]
fn unrecognized_characters_are_comments() {
    let product = run_program("a + b .", vec![]);
    assert_eq!(
        statuses(&product),
        vec![Status::ByteIncremented, Status::ByteCopiedToOutput]
    );
    assert_eq!(product.output, vec![1]);
    assert_eq!(product.executions, 2);
}

#[test]
fn bracket_resolution_is_idempotent() {
    // Two fresh engines over the same program, position and cell values
    // resolve every bracket identically: the traces agree step for step.
    let program = "++[>+<-]>.";
    let first = run_program(program, vec![]);
    let second = run_program(program, vec![]);
    assert_eq!(first.snapshots.len(), second.snapshots.len());
    for (a, b) in first.snapshots.iter().zip(second.snapshots.iter()) {
        assert_eq!(a.memory, b.memory);
        assert_eq!(a.memory_pointer, b.memory_pointer);
        assert_eq!(a.instruction_pointer, b.instruction_pointer);
        assert_eq!(a.input_pointer, b.input_pointer);
        assert_eq!(a.output, b.output);
        assert_eq!(a.is_error, b.is_error);
        assert_eq!(a.status, b.status);
    }
    assert_eq!(first.output, second.output);
    assert_eq!(first.executions, second.executions);
}

#[test]
fn moving_values_across_the_tape() {
    // ++[>+<-]>. moves the value 2 one cell to the right and prints it
    let product = run_program("++[>+<-]>.", vec![]);
    assert_eq!(product.output, vec![2]);
    let last = product.snapshots.last().unwrap();
    assert_eq!(last.memory, vec![0, 2]);
}

#[test]
fn new_is_with_limits_zero() {
    let mut unlimited = Runtime::new("+>+.".to_string(), vec![5]);
    let mut explicit = Runtime::with_limits("+>+.".to_string(), vec![5], 0, 0);
    let first = unlimited.run();
    let second = explicit.run();
    assert_eq!(first.output, second.output);
    assert_eq!(first.executions, second.executions);
    assert_eq!(first.snapshots.len(), second.snapshots.len());
}

#[test]
fn snapshot_output_is_cumulative() {
    let product = run_program("+.+.", vec![]);
    assert_eq!(product.snapshots[1].output, vec![1]);
    assert_eq!(product.snapshots[3].output, vec![1, 2]);
    assert_eq!(product.output, vec![1, 2]);
}

#[test]
fn error_keeps_earlier_effects() {
    // the output appended before the failing move-left stays visible
    let product = run_program("+.<", vec![]);
    assert_eq!(product.output, vec![1]);
    let last = product.snapshots.last().unwrap();
    assert!(last.is_error);
    assert_eq!(last.status, Status::PointerUnderflow);
    assert_eq!(product.executions, 3);
}
