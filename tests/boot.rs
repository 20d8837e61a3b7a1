use opensbi_rt::boot::{
    next_step, stack_top, BootAction, BootSystem, HartPhase, MAX_HARTS, STACK_SIZE_PER_HART,
};

#[test]
fn initializing_hart_goes_through_init_in_order() {
    let mut phase = HartPhase::Entered;
    let mut actions = Vec::new();
    for _ in 0..6 {
        let (next, action) = next_step(0, phase, false);
        actions.push(action);
        phase = next;
    }
    assert_eq!(
        actions,
        vec![
            BootAction::InitConsole,
            BootAction::InstallHeap,
            BootAction::PublishReady,
            BootAction::EnterMain,
            BootAction::Shutdown,
            BootAction::Halt,
        ]
    );
}

#[test]
fn other_harts_spin_until_ready() {
    assert_eq!(next_step(2, HartPhase::Entered, false), (HartPhase::Waiting, BootAction::Spin));
    assert_eq!(next_step(2, HartPhase::Waiting, false), (HartPhase::Waiting, BootAction::Spin));
    assert_eq!(next_step(2, HartPhase::Waiting, true), (HartPhase::InMain, BootAction::EnterMain));
    assert_eq!(next_step(1, HartPhase::Entered, true), (HartPhase::InMain, BootAction::EnterMain));
}

#[test]
fn simulated_harts_enter_main_after_initialization() {
    let n: usize = 4;
    let mut sys = BootSystem::new(n);
    // the waiting harts poll before the initializer has done anything
    for h in 1..n {
        assert_eq!(sys.step(h), BootAction::Spin);
    }
    assert_eq!(sys.step(0), BootAction::InitConsole);
    assert_eq!(sys.step(3), BootAction::Spin);
    assert_eq!(sys.step(0), BootAction::InstallHeap);
    assert_eq!(sys.step(1), BootAction::Spin);
    assert!(!sys.is_ready());
    assert_eq!(sys.step(0), BootAction::PublishReady);
    assert!(sys.is_ready());
    for h in (0..n).rev() {
        assert_eq!(sys.step(h), BootAction::EnterMain);
        assert!(sys.console_ready());
        assert_eq!(sys.heap_installs(), 1);
    }
    for h in 0..n {
        assert_eq!(sys.phase(h), HartPhase::InMain);
        assert_eq!(sys.step(h), BootAction::Shutdown);
        assert!(sys.is_ready());
    }
    assert_eq!(sys.step(2), BootAction::Halt);
    assert!(sys.is_ready());
    assert_eq!(sys.heap_installs(), 1);
    assert_eq!(sys.hart_count(), n);
}

#[test]
fn single_hart_machine_boots() {
    let mut sys = BootSystem::new(1);
    assert_eq!(sys.phase(0), HartPhase::Entered);
    assert_eq!(sys.step(0), BootAction::InitConsole);
    assert_eq!(sys.step(0), BootAction::InstallHeap);
    assert_eq!(sys.step(0), BootAction::PublishReady);
    assert_eq!(sys.step(0), BootAction::EnterMain);
    assert_eq!(sys.heap_installs(), 1);
}

#[test]
fn stack_tops_are_spaced_per_hart() {
    let base: usize = 0x8020_4000;
    assert_eq!(stack_top(base, 0), Some(0x8020_4000));
    assert_eq!(stack_top(base, 1), Some(0x8020_8000));
    assert_eq!(stack_top(base, 3), Some(0x8021_0000));
    assert_eq!(stack_top(base, MAX_HARTS), None);
    assert_eq!(stack_top(STACK_SIZE_PER_HART - 1, 0), None);
    assert_eq!(stack_top(usize::MAX - 0x100, 0), None);
}
