use vstd::prelude::*;

verus! {

/// The kinds of failure an operation of the pool can report.
#[derive(Clone, Copy, Debug, PartialEq, Eq, Structural)]
pub enum DefiError {
    /// An out-of-range configuration value or a zero amount.
    InvalidParameter,
    /// A custody transfer could not be satisfied.
    InsufficientBalance,
    /// A result would not fit in its representation.
    Overflow,
    /// The computed swap output is below the caller's floor.
    SlippageExceeded,
    /// The caller lacks the role the operation requires.
    Unauthorized,
    /// No usable price sample could be read.
    OracleUnavailable,
}

} // verus!
