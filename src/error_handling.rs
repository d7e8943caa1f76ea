use vstd::prelude::*;

verus! {

/// Builds a small vector and drops it; indexing past its end would halt.
pub fn panic_examples() {
    let _v: Vec<i32> = vec![1, 2, 3];
}

/// How opening a file went.
#[derive(Debug, Clone, Copy, PartialEq, Eq, Structural)]
pub enum OpenOutcome {
    Opened,
    NotFound,
    Failed,
}

/// What to do next after an attempt to open a file.
#[derive(Debug, Clone, Copy, PartialEq, Eq, Structural)]
pub enum NextStep {
    /// Use the file that was opened.
    Use,
    /// The file is absent: create it.
    Create,
    /// Any other failure: stop.
    Halt,
}

/// Opened files are used, missing ones created, and any other failure stops.
pub fn after_open(outcome: OpenOutcome) -> (r: NextStep)
    ensures
        r == match outcome {
            OpenOutcome::Opened => NextStep::Use,
            OpenOutcome::NotFound => NextStep::Create,
            OpenOutcome::Failed => NextStep::Halt,
        },
{
    match outcome {
        OpenOutcome::Opened => NextStep::Use,
        OpenOutcome::NotFound => NextStep::Create,
        OpenOutcome::Failed => NextStep::Halt,
    }
}

} // verus!
