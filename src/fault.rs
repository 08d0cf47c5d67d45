//! What the page-fault handler decides. The address space does the
//! resolution itself; this module says when to ask for it and what follows.
use vstd::prelude::*;

verus! {

/// Exit code of a task killed by an unresolvable fault.
pub const SEGV_EXIT_CODE: i32 = -1;

/// What the handler does with a fault as it arrives.
#[derive(Clone, Copy, Debug, PartialEq, Eq, Structural)]
pub enum FaultAction {
    /// A kernel-mode fault: left to the trap layer.
    Decline,
    /// A user-mode fault: the faulting task's address space resolves it.
    Resolve,
}

impl FaultAction {
    /// Whether the trap layer is told the fault was taken care of.
    pub fn handled(&self) -> (r: bool)
        ensures
            r <==> *self == FaultAction::Resolve,
    {
        match self {
            FaultAction::Decline => false,
            FaultAction::Resolve => true,
        }
    }
}

/// What follows the address space's attempt to resolve a user fault.
#[derive(Clone, Copy, Debug, PartialEq, Eq, Structural)]
pub enum FaultOutcome {
    /// The page is in place: the faulting instruction runs again.
    Resume,
    /// A segmentation violation: the task exits with this code.
    Terminate(i32),
}

/// Only faults raised in user mode are taken up; kernel-mode faults are
/// declined whatever the address.
pub fn on_page_fault(from_user: bool) -> (r: FaultAction)
    ensures
        from_user ==> r == FaultAction::Resolve,
        !from_user ==> r == FaultAction::Decline,
{
    if from_user {
        FaultAction::Resolve
    } else {
        FaultAction::Decline
    }
}

/// A resolved fault resumes the task; any failure (no area, access not
/// permitted, no frame) terminates it.
pub fn on_resolution(resolved: bool) -> (r: FaultOutcome)
    ensures
        resolved ==> r == FaultOutcome::Resume,
        !resolved ==> r == FaultOutcome::Terminate(SEGV_EXIT_CODE),
{
    if resolved {
        FaultOutcome::Resume
    } else {
        FaultOutcome::Terminate(SEGV_EXIT_CODE)
    }
}

} // verus!
