//! The monitoring session: it owns the hook registry and the allocation
//! table, and turns each host notification into the instructions and host
//! operations that answer it.
//!
//! The caller performs every host operation itself (reading registers,
//! adding breakpoints, writing files, changing protections) and reports
//! back what happened, so every decision stays here.
use vstd::prelude::*;
use crate::allocation::{
    AllocationRecord, AllocationTable, begin_spec, resolve_spec, end_spec, lookup_spec,
    first_pending, lemma_first_pending_of_fresh, lemma_lookup_resolved, lemma_resolved_region_lookup, record_contains, is_pending_for,
};
use crate::exception::ExceptionInfo;
use crate::hooks::{
    HookAction, HookEntry, HookError, HookKind, HookRegistry, entries_wf, entry_spec, fire_spec,
    has_exit, install_spec, install_exit_spec, lemma_exit_installed_once,
};
use crate::instruction::{DebugInstruction, DEBUG_STATUS_BREAK};
use crate::protection::{
    flip_protection, flip_spec, is_executable, is_writable, lemma_flip_clears_execute,
    without_execute,
};

verus! {

/// Engine state flag: the execution status changed.
pub const DEBUG_CES_EXECUTION_STATUS: u32 = 0x10;

/// What a breakpoint handler reads from the stopped thread (x64 calling
/// convention: the first four arguments in rcx, rdx, r8, r9).
#[derive(Clone, Copy, Debug, PartialEq, Eq, Structural)]
pub struct CallContext {
    /// rcx.
    pub first_argument: u64,
    /// rdx.
    pub second_argument: u64,
    /// r8.
    pub third_argument: u64,
    /// r9.
    pub fourth_argument: u64,
    /// rax.
    pub return_value: u64,
    /// rip.
    pub instruction_pointer: u64,
    /// Return address of the top stack frame.
    pub return_address: u64,
}

/// How to answer a breakpoint.
#[derive(Clone, Copy, Debug, PartialEq, Eq, Structural)]
pub struct BreakpointResponse {
    /// What the engine is told to do.
    pub instruction: DebugInstruction,
    /// The action of the hook that fired; `None` when the breakpoint is not ours.
    pub action: Option<HookAction>,
    /// Install an exit hook at this address, then report it with
    /// [`Monitor::install_exit`].
    pub exit_site: Option<u64>,
    /// Write this value into the protection argument (r9) before the call proceeds.
    pub protection_rewrite: Option<u64>,
    /// Size of the allocation that this return resolved.
    pub resolved_size: Option<u64>,
}

/// How to answer a fault inside a tracked region.
#[derive(Clone, Copy, Debug, PartialEq, Eq, Structural)]
pub struct FaultPlan {
    /// Base of the region.
    pub base: u64,
    /// Size of the region in bytes.
    pub size: u64,
    /// The protection to set back on the region: the one the request asked for.
    pub restore_protection: u32,
    /// Whether the region's bytes must be written out; false once it has been.
    pub dump: bool,
}

/// A session as a value.
pub struct MonitorView {
    /// The registry's entries.
    pub hooks: Seq<HookEntry>,
    /// The allocation table's records.
    pub allocations: Seq<AllocationRecord>,
    /// The regions written out so far, as `(base, size)`.
    pub dumped: Seq<(u64, u64)>,
    /// Whether a handled fault still owes the target an explicit continue.
    pub continue_pending: bool,
}

/// The response to a breakpoint that is not ours.
pub open spec fn no_opinion() -> BreakpointResponse {
    BreakpointResponse {
        instruction: DebugInstruction::NoChange,
        action: None,
        exit_site: None,
        protection_rewrite: None,
        resolved_size: None,
    }
}

/// The rewrite of the protection register for a requested protection.
pub open spec fn rewrite_spec(register: u64) -> Option<u64> {
    match flip_spec(register as u32) {
        Some(q) => Some(q as u64),
        None => None,
    }
}

/// The session after breakpoint `id` fired with the thread in `ctx`, and the response.
pub open spec fn breakpoint_spec(v: MonitorView, id: u128, ctx: CallContext) -> (
    MonitorView,
    BreakpointResponse,
) {
    match fire_spec(v.hooks, id, ctx.return_address) {
        None => (v, no_opinion()),
        Some(f) => {
            let base = BreakpointResponse {
                instruction: DebugInstruction::Go,
                action: Some(f.action),
                exit_site: f.exit_site,
                protection_rewrite: None,
                resolved_size: None,
            };
            match f.action {
                HookAction::AllocationRequest => (
                    MonitorView {
                        allocations: begin_spec(
                            v.allocations,
                            ctx.second_argument,
                            ctx.fourth_argument as u32,
                            ctx.return_address,
                        ),
                        ..v
                    },
                    BreakpointResponse { protection_rewrite: rewrite_spec(ctx.fourth_argument), ..base },
                ),
                HookAction::AllocationReturn => (
                    MonitorView {
                        allocations: resolve_spec(
                            v.allocations,
                            ctx.instruction_pointer,
                            ctx.return_value,
                        ),
                        ..v
                    },
                    BreakpointResponse {
                        resolved_size: match first_pending(v.allocations, ctx.instruction_pointer, 0) {
                            Some(i) => Some(v.allocations[i].size),
                            None => None,
                        },
                        ..base
                    },
                ),
                HookAction::Deallocation => (
                    MonitorView {
                        allocations: end_spec(v.allocations, ctx.first_argument, ctx.second_argument),
                        ..v
                    },
                    base,
                ),
                _ => (v, base),
            }
        },
    }
}

/// The plan for exception `info`: `None` unless it is a first-chance access
/// violation inside a resolved region.
pub open spec fn fault_plan_spec(v: MonitorView, info: ExceptionInfo) -> Option<FaultPlan> {
    if !info.is_first_chance_access_violation() {
        None
    } else {
        match lookup_spec(v.allocations, info.record.exception_address) {
            Some(r) => Some(
                FaultPlan {
                    base: r.base->Some_0,
                    size: r.size,
                    restore_protection: r.protection,
                    dump: !v.dumped.contains((r.base->Some_0, r.size)),
                },
            ),
            None => None,
        }
    }
}

/// Whether to set the region's protection back once the write step is
/// over: only when the region did not need writing or was written, so that
/// a failed write leaves the fault to the default handling untouched.
pub open spec fn should_restore_spec(plan: FaultPlan, dump_written: bool) -> bool {
    !plan.dump || dump_written
}

/// Whether to set the region's protection back, given whether the region
/// was written out.
pub fn should_restore(plan: &FaultPlan, dump_written: bool) -> (r: bool)
    ensures
        r == should_restore_spec(*plan, dump_written),
{
    !plan.dump || dump_written
}

/// Whether the fault was handled: the protection was restored, and the
/// region was written out if the plan asked for it.
pub open spec fn fault_handled_spec(plan: FaultPlan, dump_written: bool, protection_restored: bool) -> bool {
    protection_restored && (!plan.dump || dump_written)
}

/// The session after the caller carried out `plan`.
pub open spec fn fault_outcome_spec(
    v: MonitorView,
    plan: FaultPlan,
    dump_written: bool,
    protection_restored: bool,
) -> MonitorView {
    let dumped = if plan.dump && dump_written && !v.dumped.contains((plan.base, plan.size)) {
        v.dumped.push((plan.base, plan.size))
    } else {
        v.dumped
    };
    MonitorView {
        dumped,
        continue_pending: v.continue_pending || fault_handled_spec(plan, dump_written, protection_restored),
        ..v
    }
}

/// Whether an engine state change reports, as its only change, that the
/// target stopped.
pub open spec fn is_stop_notice(flags: u32, argument: u64) -> bool {
    flags == DEBUG_CES_EXECUTION_STATUS && argument as u32 == DEBUG_STATUS_BREAK
}

/// Faults in one region are answered with one write of its bytes: once a
/// plan that asked for the write was carried out, a later fault in the same
/// region asks for none, and the session records the region once.
pub proof fn lemma_dump_once(
    v: MonitorView,
    first: ExceptionInfo,
    second: ExceptionInfo,
    protection_restored: bool,
)
    requires
        v.dumped.no_duplicates(),
        fault_plan_spec(v, first) matches Some(p) && p.dump,
        second.is_first_chance_access_violation(),
        lookup_spec(v.allocations, second.record.exception_address) == lookup_spec(
            v.allocations,
            first.record.exception_address,
        ),
    ensures
        ({
            let p = fault_plan_spec(v, first)->Some_0;
            let w = fault_outcome_spec(v, p, true, protection_restored);
            &&& w.dumped.no_duplicates()
            &&& w.dumped.contains((p.base, p.size))
            &&& w.allocations == v.allocations
            &&& fault_plan_spec(w, second) matches Some(q) && !q.dump && q.base == p.base && q.size
                == p.size
        }),
{
    let p = fault_plan_spec(v, first)->Some_0;
    let w = fault_outcome_spec(v, p, true, protection_restored);
    assert(w.dumped == v.dumped.push((p.base, p.size)));
    assert(w.dumped[v.dumped.len() as int] == (p.base, p.size));
    assert forall|i: int, j: int|
        0 <= i < w.dumped.len() && 0 <= j < w.dumped.len() && i != j implies w.dumped[i]
        != w.dumped[j] by {
        if i < v.dumped.len() && j < v.dumped.len() {
            assert(v.dumped[i] != v.dumped[j]);
        } else if i < v.dumped.len() {
            assert(v.dumped.contains(v.dumped[i]));
        } else {
            assert(v.dumped.contains(v.dumped[j]));
        }
    }
}

/// A request for writable and executable memory is rewritten to one that
/// cannot execute, while the table keeps the protection as requested: once
/// the call returns `base`, a fault in `[base, base + size)` that no other
/// record contains plans to set the requested protection back.
pub proof fn lemma_requested_protection_restored(
    v: MonitorView,
    enter: u128,
    exit: u128,
    ctx: CallContext,
    exit_ctx: CallContext,
    info: ExceptionInfo,
)
    requires
        entry_spec(v.hooks, enter) matches Some(e) && e.action == HookAction::AllocationRequest,
        entry_spec(v.hooks, exit) matches Some(e) && e.action == HookAction::AllocationReturn,
        forall|k: int|
            0 <= k < v.allocations.len() ==> !record_contains(
                #[trigger] v.allocations[k],
                info.record.exception_address,
            ) && !is_pending_for(v.allocations[k], ctx.return_address),
        exit_ctx.instruction_pointer == ctx.return_address,
        info.is_first_chance_access_violation(),
        exit_ctx.return_value <= info.record.exception_address < exit_ctx.return_value
            + ctx.second_argument,
    ensures
        ({
            let p = ctx.fourth_argument as u32;
            let (v1, r1) = breakpoint_spec(v, enter, ctx);
            let (v2, r2) = breakpoint_spec(v1, exit, exit_ctx);
            &&& is_writable(p) && is_executable(p) ==> r1.protection_rewrite == Some(
                without_execute(p) as u64,
            ) && is_writable(without_execute(p)) && !is_executable(without_execute(p))
            &&& r2.resolved_size == Some(ctx.second_argument)
            &&& fault_plan_spec(v2, info) matches Some(plan) && plan.restore_protection == p
                && plan.base == exit_ctx.return_value && plan.size == ctx.second_argument
        }),
{
    let p = ctx.fourth_argument as u32;
    if is_writable(p) && is_executable(p) {
        lemma_flip_clears_execute(p);
    }
    let (v1, r1) = breakpoint_spec(v, enter, ctx);
    let t = begin_spec(v.allocations, ctx.second_argument, p, ctx.return_address);
    assert(v1.allocations == t);
    lemma_resolved_region_lookup(
        v.allocations,
        ctx.second_argument,
        p,
        ctx.return_address,
        exit_ctx.return_value,
        info.record.exception_address,
    );
    lemma_first_pending_of_fresh(
        v.allocations,
        ctx.second_argument,
        p,
        ctx.return_address,
    );
}

/// Two calls of a monitored function through one return site install one
/// exit hook: the first call asks for it, and once it is installed a second
/// call asks for none, and the registry holds exactly one exit entry there.
pub proof fn lemma_breakpoint_exit_once(
    v: MonitorView,
    enter: u128,
    exit: u128,
    first: CallContext,
    second: CallContext,
)
    requires
        entries_wf(v.hooks),
        second.return_address == first.return_address,
        breakpoint_spec(v, enter, first).1.exit_site == Some(first.return_address),
        install_exit_spec(breakpoint_spec(v, enter, first).0.hooks, exit, enter, first.return_address) is Ok,
    ensures
        ({
            let v1 = breakpoint_spec(v, enter, first).0;
            let hooks = install_exit_spec(v1.hooks, exit, enter, first.return_address)->Ok_0;
            let v2 = MonitorView { hooks, ..v1 };
            let (v3, r) = breakpoint_spec(v2, enter, second);
            &&& r.exit_site is None
            &&& entries_wf(v3.hooks)
            &&& has_exit(v3.hooks, enter, first.return_address)
            &&& forall|i: int, j: int|
                0 <= i < v3.hooks.len() && 0 <= j < v3.hooks.len() && (#[trigger] v3.hooks[i]).kind
                    == (HookKind::CallExit { enter, return_address: first.return_address }) && (
                #[trigger] v3.hooks[j]).kind == (HookKind::CallExit {
                    enter,
                    return_address: first.return_address,
                }) ==> i == j
        }),
{
    let v1 = breakpoint_spec(v, enter, first).0;
    assert(v1.hooks == v.hooks);
    lemma_exit_installed_once(v.hooks, exit, exit, enter, first.return_address);
}

/// The monitoring session.
pub struct Monitor {
    hooks: HookRegistry,
    allocations: AllocationTable,
    dumped: Vec<(u64, u64)>,
    continue_pending: bool,
}

impl View for Monitor {
    type V = MonitorView;

    closed spec fn view(&self) -> MonitorView {
        MonitorView {
            hooks: self.hooks@,
            allocations: self.allocations@,
            dumped: self.dumped@,
            continue_pending: self.continue_pending,
        }
    }
}

impl Monitor {
    /// The session's invariant: the registry's, and no region recorded as
    /// dumped twice.
    pub open spec fn wf(&self) -> bool {
        &&& entries_wf(self@.hooks)
        &&& self@.dumped.no_duplicates()
    }

    /// A session with no hooks, no allocations, nothing dumped.
    pub fn new() -> (r: Self)
        ensures
            r.wf(),
            r@.hooks == Seq::<HookEntry>::empty(),
            r@.allocations == Seq::<AllocationRecord>::empty(),
            r@.dumped == Seq::<(u64, u64)>::empty(),
            !r@.continue_pending,
    {
        Monitor {
            hooks: HookRegistry::new(),
            allocations: AllocationTable::new(),
            dumped: Vec::new(),
            continue_pending: false,
        }
    }

    /// The hook registry.
    pub fn hooks(&self) -> (r: &HookRegistry)
        ensures
            r@ == self@.hooks,
    {
        &self.hooks
    }

    /// The allocation table.
    pub fn allocations(&self) -> (r: &AllocationTable)
        ensures
            r@ == self@.allocations,
    {
        &self.allocations
    }

    /// Whether the region at `base` of `size` bytes has been written out.
    pub fn is_dumped(&self, base: u64, size: u64) -> (r: bool)
        ensures
            r == self@.dumped.contains((base, size)),
    {
        let mut i: usize = 0;
        while i < self.dumped.len()
            invariant
                0 <= i <= self.dumped@.len(),
                forall|k: int| 0 <= k < i ==> self.dumped@[k] != (base, size),
            decreases self.dumped.len() - i,
        {
            let (b, s) = self.dumped[i];
            if b == base && s == size {
                proof {
                    assert(self.dumped@[i as int] == (base, size));
                }
                return true;
            }
            i += 1;
        }
        false
    }

    /// Whether a handled fault still owes the target an explicit continue.
    pub fn continue_pending(&self) -> (r: bool)
        ensures
            r == self@.continue_pending,
    {
        self.continue_pending
    }

    /// Take ownership of the enter hook `id` (a breakpoint the caller has
    /// just added); refused when `id` is already live.
    pub fn watch(&mut self, id: u128, action: HookAction, name: String) -> (r: Result<(), HookError>)
        requires
            old(self).wf(),
        ensures
            final(self).wf(),
            final(self)@.allocations == old(self)@.allocations,
            final(self)@.dumped == old(self)@.dumped,
            final(self)@.continue_pending == old(self)@.continue_pending,
            match install_spec(old(self)@.hooks, id, action, name) {
                Ok(s) => r is Ok && final(self)@.hooks == s,
                Err(e) => r == Err::<(), HookError>(e) && final(self)@.hooks == old(self)@.hooks,
            },
    {
        self.hooks.install(id, action, name)
    }

    /// Take ownership of the exit hook `exit_id` that the caller added at
    /// `return_address` for the enter hook `enter`.
    pub fn install_exit(&mut self, exit_id: u128, enter: u128, return_address: u64) -> (r: Result<
        (),
        HookError,
    >)
        requires
            old(self).wf(),
        ensures
            final(self).wf(),
            final(self)@.allocations == old(self)@.allocations,
            final(self)@.dumped == old(self)@.dumped,
            final(self)@.continue_pending == old(self)@.continue_pending,
            match install_exit_spec(old(self)@.hooks, exit_id, enter, return_address) {
                Ok(s) => r is Ok && final(self)@.hooks == s,
                Err(e) => r == Err::<(), HookError>(e) && final(self)@.hooks == old(self)@.hooks,
            },
    {
        self.hooks.install_exit(exit_id, enter, return_address)
    }

    /// Answer breakpoint `id`, fired with the thread in `ctx`.
    pub fn on_breakpoint(&mut self, id: u128, ctx: &CallContext) -> (r: BreakpointResponse)
        requires
            old(self).wf(),
        ensures
            final(self).wf(),
            (final(self)@, r) == breakpoint_spec(old(self)@, id, *ctx),
    {
        let fired = match self.hooks.on_fire(id, ctx.return_address) {
            Some(f) => f,
            None => {
                return BreakpointResponse {
                    instruction: DebugInstruction::NoChange,
                    action: None,
                    exit_site: None,
                    protection_rewrite: None,
                    resolved_size: None,
                };
            },
        };
        let mut response = BreakpointResponse {
            instruction: DebugInstruction::Go,
            action: Some(fired.action),
            exit_site: fired.exit_site,
            protection_rewrite: None,
            resolved_size: None,
        };
        match fired.action {
            HookAction::AllocationRequest => {
                let requested = ctx.fourth_argument as u32;
                self.allocations.begin(ctx.second_argument, requested, ctx.return_address);
                response.protection_rewrite = match flip_protection(requested) {
                    Some(q) => Some(q as u64),
                    None => None,
                };
            },
            HookAction::AllocationReturn => {
                response.resolved_size = self.allocations.resolve(
                    ctx.instruction_pointer,
                    ctx.return_value,
                );
            },
            HookAction::Deallocation => {
                let _ = self.allocations.end(ctx.first_argument, ctx.second_argument);
            },
            _ => {},
        }
        response
    }

    /// Decide how to answer exception `info`: `None` leaves it to the
    /// default handling (answer [`DebugInstruction::GoNotHandled`]); a plan
    /// asks the caller to write the region out if `dump` is set, to set
    /// its protection back, and then to report with [`Monitor::fault_outcome`].
    pub fn on_exception(&self, info: &ExceptionInfo) -> (r: Option<FaultPlan>)
        ensures
            r == fault_plan_spec(self@, *info),
    {
        if !info.first_chance_access_violation() {
            return None;
        }
        match self.allocations.lookup(info.record.exception_address) {
            Some(rec) => {
                let base = match rec.base {
                    Some(b) => b,
                    None => {
                        proof {
                            lemma_lookup_resolved(
                                self@.allocations,
                                info.record.exception_address,
                            );
                        }
                        return None;
                    },
                };
                let dump = !self.is_dumped(base, rec.size);
                Some(FaultPlan { base, size: rec.size, restore_protection: rec.protection, dump })
            },
            None => None,
        }
    }

    /// Record what the caller did for `plan`, and answer the exception:
    /// handled when the protection was restored and the region written out
    /// if it had to be; a handled fault owes the target one explicit continue.
    pub fn fault_outcome(&mut self, plan: &FaultPlan, dump_written: bool, protection_restored: bool) -> (r:
        DebugInstruction)
        requires
            old(self).wf(),
        ensures
            final(self).wf(),
            final(self)@ == fault_outcome_spec(old(self)@, *plan, dump_written, protection_restored),
            r == (if fault_handled_spec(*plan, dump_written, protection_restored) {
                DebugInstruction::GoHandled
            } else {
                DebugInstruction::GoNotHandled
            }),
    {
        if plan.dump && dump_written && !self.is_dumped(plan.base, plan.size) {
            self.dumped.push((plan.base, plan.size));
        }
        if protection_restored && (!plan.dump || dump_written) {
            self.continue_pending = true;
            DebugInstruction::GoHandled
        } else {
            DebugInstruction::GoNotHandled
        }
    }

    /// Answer an engine state change: returns whether the caller must tell
    /// the engine to continue, which it owes once after a handled fault
    /// when the target reports that it stopped.
    pub fn on_engine_state(&mut self, flags: u32, argument: u64) -> (r: bool)
        requires
            old(self).wf(),
        ensures
            final(self).wf(),
            r == (old(self)@.continue_pending && is_stop_notice(flags, argument)),
            final(self)@ == (MonitorView { continue_pending: old(self)@.continue_pending && !r, ..old(self)@ }),
    {
        if self.continue_pending && flags == DEBUG_CES_EXECUTION_STATUS && argument as u32
            == DEBUG_STATUS_BREAK {
            self.continue_pending = false;
            true
        } else {
            false
        }
    }

    /// End the session's hold on its breakpoints: empty the registry and
    /// return their identities, in installation order, for the caller to
    /// remove from the host (a failed removal does not stop the others).
    pub fn remove_all(&mut self) -> (r: Vec<u128>)
        requires
            old(self).wf(),
        ensures
            final(self).wf(),
            r@ == old(self)@.hooks.map_values(|e: HookEntry| e.id),
            final(self)@ == (MonitorView { hooks: Seq::<HookEntry>::empty(), ..old(self)@ }),
    {
        self.hooks.remove_all()
    }
}

} // verus!
