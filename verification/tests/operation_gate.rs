use qubit_progress::GateLifecycle;
use qubit_progress::OperationGate;
use qubit_progress::OperationLifecycle;

#[test]
fn open_gate_admits_and_releases_updates() {
    let mut gate = OperationGate::new();
    assert_eq!(gate.lifecycle(), GateLifecycle::Open);
    assert_eq!(gate.enter_update(), Ok(()));
    assert_eq!(gate.enter_update(), Ok(()));
    assert_eq!(gate.active_updates(), 2);
    gate.leave_update();
    assert_eq!(gate.active_updates(), 1);
}

#[test]
fn finishing_gate_rejects_new_updates_until_reopened() {
    let mut gate = OperationGate::new();
    assert!(gate.try_begin_finish());
    assert!(!gate.try_begin_finish());
    assert_eq!(gate.enter_update(), Err(GateLifecycle::Finishing));
    gate.reopen();
    assert_eq!(gate.enter_update(), Ok(()));
}

#[test]
fn closed_gate_stays_closed() {
    let mut gate = OperationGate::new();
    gate.close();
    assert_eq!(gate.enter_update(), Err(GateLifecycle::Closed));
    assert!(!gate.try_begin_finish());
    assert_eq!(gate.lifecycle(), GateLifecycle::Closed);
    assert_eq!(
        GateLifecycle::Closed.to_operation_lifecycle(),
        OperationLifecycle::Closed
    );
    assert_eq!(
        GateLifecycle::Finishing.to_operation_lifecycle(),
        OperationLifecycle::Finishing
    );
}

#[test]
fn registered_count_is_admitted_minus_released() {
    let mut gate = OperationGate::new();
    let mut admitted = 0;
    for _ in 0..4 {
        if gate.enter_update().is_ok() {
            admitted += 1;
        }
    }
    gate.leave_update();
    assert!(gate.try_begin_finish());
    assert!(gate.enter_update().is_err());
    gate.reopen();
    assert!(gate.enter_update().is_ok());
    admitted += 1;
    gate.leave_update();
    assert_eq!(gate.active_updates(), admitted - 2);
    assert_eq!(gate.active_updates(), 3);
}

#[test]
fn a_closed_gate_admits_nothing_later() {
    let mut gate = OperationGate::new();
    assert_eq!(gate.enter_update(), Ok(()));
    gate.close();
    gate.leave_update();
    for _ in 0..3 {
        assert_eq!(gate.enter_update(), Err(GateLifecycle::Closed));
        assert!(!gate.try_begin_finish());
    }
    assert_eq!(gate.lifecycle(), GateLifecycle::Closed);
    assert_eq!(gate.active_updates(), 0);
}
