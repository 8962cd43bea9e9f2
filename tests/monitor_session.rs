use dbgeng::dump::dump_file_name;
use dbgeng::exception::{ExceptionInfo, ExceptionRecord, EXCEPTION_ACCESS_VIOLATION};
use dbgeng::hooks::{HookAction, HookError};
use dbgeng::instruction::{DebugInstruction, DEBUG_STATUS_BREAK, DEBUG_STATUS_GO};
use dbgeng::monitor::{should_restore, CallContext, FaultPlan, Monitor, DEBUG_CES_EXECUTION_STATUS};

const ALLOC: u128 = 100;
const FREE: u128 = 200;
const ALLOC_EXIT: u128 = 300;
const RET: u64 = 0x0040_1234;

fn ctx() -> CallContext {
    CallContext {
        first_argument: 0,
        second_argument: 0,
        third_argument: 0,
        fourth_argument: 0,
        return_value: 0,
        instruction_pointer: 0,
        return_address: 0,
    }
}

fn fault(code: i32, first_chance: u32, address: u64) -> ExceptionInfo {
    ExceptionInfo {
        record: ExceptionRecord {
            exception_code: code,
            exception_flag: 0,
            exception_record: 0,
            exception_address: address,
            number_parameters: 0,
            exception_information: [0; 15],
        },
        first_chance,
    }
}

fn session() -> Monitor {
    let mut m = Monitor::new();
    m.watch(ALLOC, HookAction::AllocationRequest, String::from("KERNELBASE!VirtualAlloc")).unwrap();
    m.watch(FREE, HookAction::Deallocation, String::from("KERNELBASE!VirtualFree")).unwrap();
    m
}

fn allocate(m: &mut Monitor, size: u64, protection: u64, base: u64) {
    let r = m.on_breakpoint(ALLOC, &CallContext { second_argument: size, fourth_argument: protection, return_address: RET, ..ctx() });
    if let Some(site) = r.exit_site {
        m.install_exit(ALLOC_EXIT, ALLOC, site).unwrap();
    }
    m.on_breakpoint(ALLOC_EXIT, &CallContext { return_value: base, instruction_pointer: RET, ..ctx() });
}

#[test]
fn end_to_end_allocation_fault_and_free() {
    let mut m = session();
    // Enter hook: size 0x1000, protection RWX.
    let enter = m.on_breakpoint(ALLOC, &CallContext { second_argument: 0x1000, fourth_argument: 0x40, return_address: RET, ..ctx() });
    assert_eq!(enter.instruction, DebugInstruction::Go);
    assert_eq!(enter.action, Some(HookAction::AllocationRequest));
    assert_eq!(enter.protection_rewrite, Some(0x04));
    assert_eq!(enter.exit_site, Some(RET));
    assert_eq!(m.install_exit(ALLOC_EXIT, ALLOC, RET), Ok(()));
    // Exit hook: returns 0x7ff00000.
    let exit = m.on_breakpoint(ALLOC_EXIT, &CallContext { return_value: 0x7ff0_0000, instruction_pointer: RET, ..ctx() });
    assert_eq!(exit.instruction, DebugInstruction::Go);
    assert_eq!(exit.resolved_size, Some(0x1000));
    let rec = m.allocations().lookup(0x7ff0_0fff).unwrap();
    assert_eq!(rec.base, Some(0x7ff0_0000));
    assert_eq!(m.allocations().lookup(0x7ff0_1000), None);
    // Fault inside the region.
    let plan = m.on_exception(&fault(EXCEPTION_ACCESS_VIOLATION, 1, 0x7ff0_0010)).unwrap();
    assert_eq!(plan, FaultPlan { base: 0x7ff0_0000, size: 0x1000, restore_protection: 0x40, dump: true });
    assert_eq!(dump_file_name(plan.base, plan.size), b"dump_7ff00000_4096.bin".to_vec());
    assert_eq!(m.fault_outcome(&plan, true, true), DebugInstruction::GoHandled);
    // Free it.
    let free = m.on_breakpoint(FREE, &CallContext { first_argument: 0x7ff0_0000, second_argument: 0x1000, ..ctx() });
    assert_eq!(free.instruction, DebugInstruction::Go);
    assert_eq!(m.allocations().lookup(0x7ff0_0010), None);
    assert_eq!(m.on_exception(&fault(EXCEPTION_ACCESS_VIOLATION, 1, 0x7ff0_0010)), None);
}

#[test]
fn region_is_dumped_once() {
    let mut m = session();
    allocate(&mut m, 0x2000, 0x40, 0x5000_0000);
    let first = m.on_exception(&fault(EXCEPTION_ACCESS_VIOLATION, 1, 0x5000_0100)).unwrap();
    assert!(first.dump);
    assert_eq!(m.fault_outcome(&first, true, true), DebugInstruction::GoHandled);
    assert!(m.is_dumped(0x5000_0000, 0x2000));
    let second = m.on_exception(&fault(EXCEPTION_ACCESS_VIOLATION, 1, 0x5000_1fff)).unwrap();
    assert!(!second.dump);
    assert_eq!(second.restore_protection, 0x40);
    assert_eq!(m.fault_outcome(&second, false, true), DebugInstruction::GoHandled);
    assert!(m.is_dumped(0x5000_0000, 0x2000));
}

#[test]
fn failed_dump_is_retried_and_fault_unhandled() {
    let mut m = session();
    allocate(&mut m, 0x1000, 0x40, 0x6000_0000);
    let plan = m.on_exception(&fault(EXCEPTION_ACCESS_VIOLATION, 1, 0x6000_0000)).unwrap();
    assert_eq!(m.fault_outcome(&plan, false, true), DebugInstruction::GoNotHandled);
    assert!(!m.continue_pending());
    assert!(m.on_exception(&fault(EXCEPTION_ACCESS_VIOLATION, 1, 0x6000_0000)).unwrap().dump);
}

#[test]
fn failed_protection_restore_leaves_fault_unhandled() {
    let mut m = session();
    allocate(&mut m, 0x1000, 0x40, 0x6000_0000);
    let plan = m.on_exception(&fault(EXCEPTION_ACCESS_VIOLATION, 1, 0x6000_0000)).unwrap();
    assert_eq!(m.fault_outcome(&plan, true, false), DebugInstruction::GoNotHandled);
    assert!(m.is_dumped(0x6000_0000, 0x1000));
    assert!(!m.continue_pending());
}

#[test]
fn other_exceptions_are_not_ours() {
    let mut m = session();
    allocate(&mut m, 0x1000, 0x40, 0x6000_0000);
    // Breakpoint exception code.
    assert_eq!(m.on_exception(&fault(0x8000_0003u32 as i32, 1, 0x6000_0000)), None);
    // Second chance.
    assert_eq!(m.on_exception(&fault(EXCEPTION_ACCESS_VIOLATION, 0, 0x6000_0000)), None);
    // Outside any region.
    assert_eq!(m.on_exception(&fault(EXCEPTION_ACCESS_VIOLATION, 1, 0x6000_1000)), None);
}

#[test]
fn unknown_breakpoint_gets_no_change() {
    let mut m = session();
    let r = m.on_breakpoint(999, &ctx());
    assert_eq!(r.instruction, DebugInstruction::NoChange);
    assert_eq!(r.action, None);
    assert_eq!(m.allocations().len(), 0);
}

#[test]
fn readonly_request_is_not_rewritten() {
    let mut m = session();
    let r = m.on_breakpoint(ALLOC, &CallContext { second_argument: 0x1000, fourth_argument: 0x04, return_address: RET, ..ctx() });
    assert_eq!(r.protection_rewrite, None);
    assert_eq!(m.allocations().get(0).unwrap().protection, 0x04);
}

#[test]
fn handled_fault_owes_one_continue_on_stop() {
    let mut m = session();
    allocate(&mut m, 0x1000, 0x40, 0x6000_0000);
    assert!(!m.on_engine_state(DEBUG_CES_EXECUTION_STATUS, DEBUG_STATUS_BREAK as u64));
    let plan = m.on_exception(&fault(EXCEPTION_ACCESS_VIOLATION, 1, 0x6000_0000)).unwrap();
    m.fault_outcome(&plan, true, true);
    assert!(m.continue_pending());
    // Not a stop notice.
    assert!(!m.on_engine_state(DEBUG_CES_EXECUTION_STATUS, DEBUG_STATUS_GO as u64));
    assert!(!m.on_engine_state(0x1, DEBUG_STATUS_BREAK as u64));
    assert!(m.on_engine_state(DEBUG_CES_EXECUTION_STATUS, DEBUG_STATUS_BREAK as u64));
    assert!(!m.continue_pending());
    assert!(!m.on_engine_state(DEBUG_CES_EXECUTION_STATUS, DEBUG_STATUS_BREAK as u64));
}

#[test]
fn watch_refuses_duplicate_and_remove_all_tears_down() {
    let mut m = session();
    assert_eq!(m.watch(ALLOC, HookAction::LogCall, String::from("x")), Err(HookError::DuplicateIdentity));
    allocate(&mut m, 0x1000, 0x40, 0x6000_0000);
    assert_eq!(m.remove_all(), vec![ALLOC, FREE, ALLOC_EXIT]);
    assert_eq!(m.hooks().len(), 0);
    assert_eq!(m.on_breakpoint(ALLOC, &ctx()).instruction, DebugInstruction::NoChange);
}

#[test]
fn dump_file_names() {
    assert_eq!(dump_file_name(0, 0), b"dump_0_0.bin".to_vec());
    assert_eq!(dump_file_name(0xdead_beef, 12345), b"dump_deadbeef_12345.bin".to_vec());
    assert_eq!(dump_file_name(u64::MAX, u64::MAX), b"dump_ffffffffffffffff_18446744073709551615.bin".to_vec());
}

#[test]
fn combined_state_flags_do_not_trigger_continue() {
    let mut m = session();
    allocate(&mut m, 0x1000, 0x40, 0x6000_0000);
    let plan = m.on_exception(&fault(EXCEPTION_ACCESS_VIOLATION, 1, 0x6000_0000)).unwrap();
    m.fault_outcome(&plan, true, true);
    assert!(!m.on_engine_state(DEBUG_CES_EXECUTION_STATUS | 0x1, DEBUG_STATUS_BREAK as u64));
    assert!(m.continue_pending());
    assert!(m.on_engine_state(DEBUG_CES_EXECUTION_STATUS, DEBUG_STATUS_BREAK as u64));
}

#[test]
fn restore_follows_the_write_step() {
    let plan = FaultPlan { base: 0x1000, size: 0x1000, restore_protection: 0x40, dump: true };
    assert!(should_restore(&plan, true));
    assert!(!should_restore(&plan, false));
    let again = FaultPlan { dump: false, ..plan };
    assert!(should_restore(&again, false));
}
