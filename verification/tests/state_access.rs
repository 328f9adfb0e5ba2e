use veyra::state_access::{StateAccessError, StateAccessGate};

#[test]
fn a_second_state_access_fails_fast_instead_of_waiting() {
    let mut gate = StateAccessGate::default();
    gate.try_lock().expect("first access");
    assert_eq!(gate.try_lock().err(), Some(StateAccessError::Busy));
}

#[test]
fn released_gate_can_be_taken_again() {
    let mut gate = StateAccessGate::new();
    gate.try_lock().expect("first access");
    gate.release();
    assert_eq!(gate.try_lock(), Ok(()));
    assert_eq!(gate.try_lock(), Err(StateAccessError::Busy));
}
