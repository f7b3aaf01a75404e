use vstd::prelude::*;

verus! {

/// A plain error with a single value.
#[derive(Debug, Clone, Copy, PartialEq, Eq)]
pub enum Er {
    E,
}

/// Why a run ended in failure.
#[derive(Debug, Clone, PartialEq, Eq)]
pub enum RunError<S> {
    /// A worker of the run itself failed; the text describes the failure.
    Threading(String),
    /// The source reported an error.
    Source(S),
    /// A stage reported an error while processing an item.
    Processor(S),
}

} // verus!
