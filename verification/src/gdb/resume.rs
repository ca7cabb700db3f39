//! How a vCPU resumes when the debugger lets it run.
use vstd::prelude::*;

verus! {

/// The way a vCPU runs once it is resumed.
#[derive(Clone, Copy, Debug, PartialEq, Eq)]
pub enum ResumeMode {
    /// The vCPU is stopped (r#continue won't get called while this is set)
    Stopped,
    /// The vCPU is single-stepped
    Step,
    /// The vCPU is uninterrupt-runnable
    Freewheel,
}

} // verus!
