use vstd::prelude::*;

verus! {

/// The closed set of outcomes an executed instruction can report.
///
/// Every snapshot carries one of these so that callers can branch on the
/// kind of outcome; [`Status::message`] renders the matching
/// human-readable cause string.
#[derive(Clone, Copy, Debug, PartialEq, Eq, Structural)]
pub enum Status {
    /// The data pointer moved one cell to the right.
    PointerIncremented,
    /// The data pointer moved one cell to the left.
    PointerDecremented,
    /// The current cell was incremented by one.
    ByteIncremented,
    /// The current cell was 255 and wrapped around to 0.
    ByteWrappedToZero,
    /// The current cell was decremented by one.
    ByteDecremented,
    /// The current cell was 0 and wrapped around to 255.
    ByteWrappedToMax,
    /// The current cell was appended to the output.
    ByteCopiedToOutput,
    /// The next input byte (or the sentinel) was stored in the current cell.
    ByteCopiedFromInput,
    /// A loop-open instruction on a zero cell found its matching close.
    MatchingCloseFound,
    /// A loop-open instruction on a nonzero cell needed no seek.
    OpenBracketSkipped,
    /// A loop-close instruction on a nonzero cell found its matching open.
    MatchingOpenFound,
    /// A loop-close instruction on a zero cell needed no seek.
    CloseBracketSkipped,
    /// A move-left was attempted at tape position 0.
    PointerUnderflow,
    /// A forward bracket seek ran off the end of the program.
    UnmatchedOpenBracket,
    /// A backward bracket seek ran off the start of the program.
    UnmatchedCloseBracket,
    /// A move-right needed growth beyond the configured memory ceiling.
    MemoryLimitExceeded,
    /// The configured execution-count ceiling was reached.
    ExecutionLimitExceeded,
}

impl Status {
    /// Whether this status reports a fatal condition.
    pub open spec fn spec_is_error(self) -> bool {
        match self {
            Status::PointerUnderflow => true,
            Status::UnmatchedOpenBracket => true,
            Status::UnmatchedCloseBracket => true,
            Status::MemoryLimitExceeded => true,
            Status::ExecutionLimitExceeded => true,
            _ => false,
        }
    }

    /// Whether this status reports a fatal condition.
    pub fn is_error(&self) -> (r: bool)
        ensures
            r == self.spec_is_error(),
    {
        match self {
            Status::PointerUnderflow => true,
            Status::UnmatchedOpenBracket => true,
            Status::UnmatchedCloseBracket => true,
            Status::MemoryLimitExceeded => true,
            Status::ExecutionLimitExceeded => true,
            _ => false,
        }
    }

    /// The human-readable status/cause string for this outcome.
    pub fn message(&self) -> &'static str {
        match self {
            Status::PointerIncremented => "incremented pointer by 1",
            Status::PointerDecremented => "decremented pointer by 1",
            Status::ByteIncremented => "incremented byte by 1",
            Status::ByteWrappedToZero => "wrapped overflow byte back to 0x00",
            Status::ByteDecremented => "decremented byte by 1",
            Status::ByteWrappedToMax => "wrapped overflow byte back to 0xFF",
            Status::ByteCopiedToOutput => "copied byte from memory to output",
            Status::ByteCopiedFromInput => "copied byte from input to memory",
            Status::MatchingCloseFound => "found matching close bracket",
            Status::OpenBracketSkipped => "byte is non-zero, no bracket seek necessary",
            Status::MatchingOpenFound => "found matching open bracket",
            Status::CloseBracketSkipped => "byte is zero, no bracket seek necessary",
            Status::PointerUnderflow => "can't decrement pointer sub-0!",
            Status::UnmatchedOpenBracket => "hit end of instructions w/o finding matching close bracket!",
            Status::UnmatchedCloseBracket => "hit beginning of instructions w/o finding matching open bracket!",
            Status::MemoryLimitExceeded => "failed to increment pointer (runtime memory limit exceeded)",
            Status::ExecutionLimitExceeded => "execution terminated by engine (instruction limit exceeded)",
        }
    }
}

} // verus!
