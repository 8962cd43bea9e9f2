use dbgeng::hooks::{exit_action, Fired, HookAction, HookError, HookKind, HookRegistry};

fn count_exits(r: &HookRegistry, enter: u128, return_address: u64) -> usize {
    let mut n = 0;
    for i in 0..r.len() {
        if r.get(i).unwrap().kind == (HookKind::CallExit { enter, return_address }) {
            n += 1;
        }
    }
    n
}

#[test]
fn install_rejects_duplicate_identity() {
    let mut r = HookRegistry::new();
    assert_eq!(r.install(1, HookAction::AllocationRequest, String::from("KERNELBASE!VirtualAlloc")), Ok(()));
    assert_eq!(r.install(1, HookAction::Deallocation, String::from("KERNELBASE!VirtualFree")), Err(HookError::DuplicateIdentity));
    assert_eq!(r.len(), 1);
    assert_eq!(r.action_of(1), Some(HookAction::AllocationRequest));
}

#[test]
fn unknown_breakpoint_has_no_opinion() {
    let r = HookRegistry::new();
    assert_eq!(r.on_fire(42, 0x1000), None);
    assert!(!r.is_monitored(42));
    assert_eq!(r.action_of(42), None);
}

#[test]
fn first_fire_asks_for_exit_hook_at_return_site() {
    let mut r = HookRegistry::new();
    r.install(1, HookAction::AllocationRequest, String::from("f")).unwrap();
    assert_eq!(
        r.on_fire(1, 0x401000),
        Some(Fired { action: HookAction::AllocationRequest, exit_site: Some(0x401000) })
    );
}

#[test]
fn exit_hook_installed_once_for_same_return_site() {
    let mut r = HookRegistry::new();
    r.install(1, HookAction::LogCall, String::from("ntdll!NtClose")).unwrap();
    let first = r.on_fire(1, 0x401000).unwrap();
    assert_eq!(first.exit_site, Some(0x401000));
    assert_eq!(r.install_exit(2, 1, 0x401000), Ok(()));
    // A second call through the same return site asks for nothing more.
    let second = r.on_fire(1, 0x401000).unwrap();
    assert_eq!(second.exit_site, None);
    assert_eq!(r.install_exit(3, 1, 0x401000), Err(HookError::ExitAlreadyInstalled));
    assert_eq!(count_exits(&r, 1, 0x401000), 1);
    assert_eq!(r.len(), 2);
    assert!(r.get(0).unwrap().exit_installed);
    assert_eq!(r.action_of(2), Some(HookAction::LogReturn));
    assert_eq!(r.name_of(2).map(|s| s.as_str()), Some("ntdll!NtClose"));
}

#[test]
fn another_return_site_gets_its_own_exit_hook() {
    let mut r = HookRegistry::new();
    r.install(1, HookAction::AllocationRequest, String::from("f")).unwrap();
    r.install_exit(2, 1, 0x401000).unwrap();
    assert_eq!(r.on_fire(1, 0x402000).unwrap().exit_site, Some(0x402000));
    assert_eq!(r.install_exit(3, 1, 0x402000), Ok(()));
    assert_eq!(r.action_of(3), Some(HookAction::AllocationReturn));
}

#[test]
fn exit_hooks_and_deallocation_hooks_ask_for_no_exit() {
    let mut r = HookRegistry::new();
    r.install(1, HookAction::AllocationRequest, String::from("f")).unwrap();
    r.install(5, HookAction::Deallocation, String::from("g")).unwrap();
    r.install_exit(2, 1, 0x401000).unwrap();
    assert_eq!(r.on_fire(2, 0x999).unwrap().exit_site, None);
    assert_eq!(r.on_fire(5, 0x999), Some(Fired { action: HookAction::Deallocation, exit_site: None }));
}

#[test]
fn install_exit_refusals() {
    let mut r = HookRegistry::new();
    r.install(1, HookAction::AllocationRequest, String::from("f")).unwrap();
    r.install(5, HookAction::Deallocation, String::from("g")).unwrap();
    assert_eq!(r.install_exit(1, 1, 0x10), Err(HookError::DuplicateIdentity));
    assert_eq!(r.install_exit(9, 77, 0x10), Err(HookError::UnknownEnterHook));
    assert_eq!(r.install_exit(9, 5, 0x10), Err(HookError::UnknownEnterHook));
    r.install_exit(2, 1, 0x10).unwrap();
    assert_eq!(r.install_exit(9, 2, 0x20), Err(HookError::UnknownEnterHook));
    assert_eq!(r.len(), 3);
}

#[test]
fn remove_all_returns_every_identity_and_empties() {
    let mut r = HookRegistry::new();
    r.install(10, HookAction::AllocationRequest, String::from("a")).unwrap();
    r.install(20, HookAction::Deallocation, String::from("b")).unwrap();
    r.install_exit(30, 10, 0x1234).unwrap();
    assert_eq!(r.remove_all(), vec![10, 20, 30]);
    assert_eq!(r.len(), 0);
    assert!(!r.is_monitored(10));
}

#[test]
fn exit_action_pairs() {
    assert_eq!(exit_action(HookAction::AllocationRequest), Some(HookAction::AllocationReturn));
    assert_eq!(exit_action(HookAction::LogCall), Some(HookAction::LogReturn));
    assert_eq!(exit_action(HookAction::Deallocation), None);
    assert_eq!(exit_action(HookAction::AllocationReturn), None);
}
