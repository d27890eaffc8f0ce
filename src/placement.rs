//! Where the optimized image is written.

use vstd::prelude::*;

verus! {

/// Where the result goes, decided before any file is opened.
#[derive(Debug, Clone, Copy, PartialEq, Eq, Structural)]
pub enum OutputPlan {
    /// Overwrite the input file: write from its start, then cut it to the
    /// new length.
    Inplace,
    /// Write to a separate path. Without `overwrite`, a file already there
    /// makes the open fail.
    NewFile { overwrite: bool },
}

/// Refusal to run: no output path was given and `--force` was not set.
#[derive(Debug, Clone, Copy, PartialEq, Eq, Structural)]
pub enum UsageError {
    MissingOutput,
}

/// The hint shown when no output path and no `--force` were given.
pub const MISSING_OUTPUT_HINT: &'static str =
    "You have to supply an output path, or supply the '--force' option.\n\nFor more information, try '--help'.";

impl UsageError {
    /// The hint shown to the user.
    pub fn message(&self) -> (r: &'static str)
        ensures
            r == MISSING_OUTPUT_HINT,
    {
        MISSING_OUTPUT_HINT
    }
}

/// Decides where to write from whether an output path was given and whether
/// overwriting was forced.
pub fn plan_output(has_output: bool, force: bool) -> (r: Result<OutputPlan, UsageError>)
    ensures
        has_output ==> r == Ok::<OutputPlan, UsageError>(OutputPlan::NewFile { overwrite: force }),
        !has_output && force ==> r == Ok::<OutputPlan, UsageError>(OutputPlan::Inplace),
        !has_output && !force ==> r == Err::<OutputPlan, UsageError>(UsageError::MissingOutput),
{
    if has_output {
        Ok(OutputPlan::NewFile { overwrite: force })
    } else if force {
        Ok(OutputPlan::Inplace)
    } else {
        Err(UsageError::MissingOutput)
    }
}

impl OutputPlan {
    /// Whether the input file is opened for writing as well as reading.
    pub fn writes_input(&self) -> (r: bool)
        ensures
            r == (*self is Inplace),
    {
        match self {
            OutputPlan::Inplace => true,
            OutputPlan::NewFile { .. } => false,
        }
    }

    /// Whether opening the output path must create a file that is not there
    /// yet.
    pub fn requires_new_file(&self) -> (r: bool)
        ensures
            r == (*self is NewFile && !self->overwrite),
    {
        match self {
            OutputPlan::Inplace => false,
            OutputPlan::NewFile { overwrite } => !*overwrite,
        }
    }

    /// Whether the file is cut to the length of what was written, so that
    /// nothing of a longer file that was there before is left behind.
    pub fn truncates_after_write(&self) -> (r: bool)
        ensures
            r == (*self is Inplace || (*self is NewFile && self->overwrite)),
    {
        match self {
            OutputPlan::Inplace => true,
            OutputPlan::NewFile { overwrite } => *overwrite,
        }
    }
}

} // verus!
