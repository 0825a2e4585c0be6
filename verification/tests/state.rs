use cross_kvm::state::{SessionState, StateAction, StateManager};

#[test]
fn test_state_flow() {
    let mut mgr = StateManager::new();
    assert!(mgr.is_local_active());

    // Jump to remote
    let action = mgr.start_controlling_remote("peer-win".into());
    assert_eq!(action, StateAction::TrapAndSuppressLocal);
    assert!(mgr.is_controlling_remote());

    // Return to local
    let action = mgr.return_to_local();
    assert_eq!(action, StateAction::ReleaseAndUnhideLocal);
    assert!(mgr.is_local_active());
}

#[test]
fn test_preemption_takeover() {
    let mut mgr = StateManager::new();
    mgr.enter_remote_controlled("peer-mac".into());
    assert!(mgr.is_remote_controlled());

    // Physical input detected on follower
    let action = mgr.handle_physical_input_detected();
    assert_eq!(action, StateAction::NotifyPreempt { peer_id: "peer-mac".into() });
    assert!(mgr.is_local_active());
}

#[test]
fn return_from_remote_controlled_is_silent() {
    let mut mgr = StateManager::default();
    mgr.enter_remote_controlled("peer-a".into());
    assert_eq!(mgr.return_to_local(), StateAction::NoAction);
    assert!(mgr.is_local_active());
    assert_eq!(mgr.return_to_local(), StateAction::NoAction);
    assert_eq!(*mgr.state(), SessionState::LocalActive);
}

#[test]
fn physical_input_outside_remote_control_does_nothing() {
    let mut mgr = StateManager::new();
    assert_eq!(mgr.handle_physical_input_detected(), StateAction::NoAction);
    assert!(mgr.is_local_active());
    mgr.start_controlling_remote("peer-b".into());
    assert_eq!(mgr.handle_physical_input_detected(), StateAction::NoAction);
    assert_eq!(*mgr.state(), SessionState::ControllingRemote { target_peer_id: "peer-b".into() });
    // second physical input after a preemption is a no-op
    mgr.enter_remote_controlled("peer-c".into());
    assert_eq!(mgr.handle_physical_input_detected(), StateAction::NotifyPreempt { peer_id: "peer-c".into() });
    assert_eq!(mgr.handle_physical_input_detected(), StateAction::NoAction);
    assert_eq!(SessionState::default(), SessionState::LocalActive);
}
