//! What the host engine is told to do after an event.
use vstd::prelude::*;

verus! {

/// Status code: no instruction.
pub const DEBUG_STATUS_NO_CHANGE: u32 = 0;
/// Status code: continue execution.
pub const DEBUG_STATUS_GO: u32 = 1;
/// Status code: continue, the exception was handled.
pub const DEBUG_STATUS_GO_HANDLED: u32 = 2;
/// Status code: continue, the exception was not handled.
pub const DEBUG_STATUS_GO_NOT_HANDLED: u32 = 3;
/// Status code: step over one instruction.
pub const DEBUG_STATUS_STEP_OVER: u32 = 4;
/// Status code: step into one instruction.
pub const DEBUG_STATUS_STEP_INTO: u32 = 5;
/// Status code: suspend the target.
pub const DEBUG_STATUS_BREAK: u32 = 6;
/// Status code: run to the next branch.
pub const DEBUG_STATUS_STEP_BRANCH: u32 = 8;
/// Status code: ignore the event.
pub const DEBUG_STATUS_IGNORE_EVENT: u32 = 9;
/// Status code: restart the target.
pub const DEBUG_STATUS_RESTART_REQUESTED: u32 = 10;

/// An instruction for the debugger to follow.
#[derive(Clone, Copy, Debug, PartialEq, Eq, Structural, Default)]
pub enum DebugInstruction {
    /// Suspend the target.
    Break,
    /// Continue execution for a single instruction (stepping into calls).
    StepInto,
    /// Continue execution until the next branch instruction.
    StepBranch,
    /// Continue execution for a single instruction, stepping over calls.
    StepOver,
    /// Continue execution and flag the event as unhandled.
    GoNotHandled,
    /// Continue execution and flag the event as handled.
    GoHandled,
    /// Continue execution.
    Go,
    /// Ignore the event.
    IgnoreEvent,
    /// Restart the target.
    Restart,
    /// No instruction: the handler has no opinion on the event.
    #[default]
    NoChange,
}

impl DebugInstruction {
    /// The engine's status code for each instruction.
    pub open spec fn status(self) -> u32 {
        match self {
            DebugInstruction::Break => DEBUG_STATUS_BREAK,
            DebugInstruction::StepInto => DEBUG_STATUS_STEP_INTO,
            DebugInstruction::StepBranch => DEBUG_STATUS_STEP_BRANCH,
            DebugInstruction::StepOver => DEBUG_STATUS_STEP_OVER,
            DebugInstruction::GoNotHandled => DEBUG_STATUS_GO_NOT_HANDLED,
            DebugInstruction::GoHandled => DEBUG_STATUS_GO_HANDLED,
            DebugInstruction::Go => DEBUG_STATUS_GO,
            DebugInstruction::IgnoreEvent => DEBUG_STATUS_IGNORE_EVENT,
            DebugInstruction::Restart => DEBUG_STATUS_RESTART_REQUESTED,
            DebugInstruction::NoChange => DEBUG_STATUS_NO_CHANGE,
        }
    }

    /// The status code that the engine expects back for this instruction.
    pub fn as_status(&self) -> (r: u32)
        ensures
            r == self.status(),
    {
        match self {
            DebugInstruction::Break => DEBUG_STATUS_BREAK,
            DebugInstruction::StepInto => DEBUG_STATUS_STEP_INTO,
            DebugInstruction::StepBranch => DEBUG_STATUS_STEP_BRANCH,
            DebugInstruction::StepOver => DEBUG_STATUS_STEP_OVER,
            DebugInstruction::GoNotHandled => DEBUG_STATUS_GO_NOT_HANDLED,
            DebugInstruction::GoHandled => DEBUG_STATUS_GO_HANDLED,
            DebugInstruction::Go => DEBUG_STATUS_GO,
            DebugInstruction::IgnoreEvent => DEBUG_STATUS_IGNORE_EVENT,
            DebugInstruction::Restart => DEBUG_STATUS_RESTART_REQUESTED,
            DebugInstruction::NoChange => DEBUG_STATUS_NO_CHANGE,
        }
    }
}

} // verus!
