use magic_loc_protocol::TwrError;
use magic_loc_protocol::anchor_state_machine::AnchorSideStateMachine;
use magic_loc_protocol::anchor_state_machine::AnyAnchorSideStateMachine;
use magic_loc_protocol::anchor_state_machine::Idle;
use magic_loc_protocol::anchor_state_machine::WaitingForResponse;

#[test]
fn test_idle() {
    let state_machine = AnchorSideStateMachine::new(1, heapless::Vec::new(), heapless::Vec::new());
    let state_machine = state_machine.waiting_for_response(0);
    let state_machine = state_machine.sending_final();
    let state_machine = state_machine.idle();

    assert_eq!(state_machine.address(), 1);
}

#[test]
fn test_any() {
    let mut state_machines: Vec<AnyAnchorSideStateMachine> = (0..8)
        .map(|_| {
            AnyAnchorSideStateMachine::from(AnchorSideStateMachine::new(
                0,
                heapless::Vec::new(),
                heapless::Vec::new(),
            ))
        })
        .collect();

    // Test failed conversion.
    let state_machine_fail: Result<&AnchorSideStateMachine<WaitingForResponse>, _> =
        (&state_machines[0]).try_into();
    assert!(state_machine_fail.is_err());

    // Test if we can get a reference to the state machine.
    let state_machine: &AnchorSideStateMachine<Idle> = (&state_machines[0]).try_into().unwrap();
    let advanced = state_machine.clone().waiting_for_response(0);
    state_machines[0] = advanced.into();

    // Now the state machine should be in the `WaitingForResponse` state.
    let state_machine: &AnchorSideStateMachine<WaitingForResponse> =
        (&state_machines[0]).try_into().unwrap();
    let advanced = state_machine.clone().sending_final();
    state_machines[0] = advanced.into();
}

#[test]
fn test_any_mutate() {
    let any_sm = AnyAnchorSideStateMachine::from(AnchorSideStateMachine::new(
        0,
        heapless::Vec::new(),
        heapless::Vec::new(),
    ));

    let result = any_sm.waiting_for_response(1);

    assert!(result.is_ok());

    let any_sm = result.unwrap();

    // Check that the state machine is now in the `WaitingForResponse` state.
    let state_machine: AnchorSideStateMachine<WaitingForResponse> = any_sm.try_into().unwrap();

    assert_eq!(state_machine.poll_tx_ts(), 1);
}

#[test]
fn anchor_transitions_succeed_only_from_predecessor_phase() {
    let mut any_sm = AnyAnchorSideStateMachine::from(AnchorSideStateMachine::new(
        7,
        heapless::Vec::new(),
        heapless::Vec::new(),
    ));

    // Idle: only the advance to WaitingForResponse is allowed.
    assert!(any_sm.to_sending_final().is_err());
    assert!(any_sm.to_idle().is_err());
    assert!(any_sm.as_idle_mut().is_some());
    assert!(any_sm.to_waiting_for_response(42).is_ok());

    // WaitingForResponse: only the advance to SendingFinal is allowed.
    assert!(any_sm.to_waiting_for_response(43).is_err());
    assert!(any_sm.to_idle().is_err());
    assert_eq!(any_sm.as_waiting_for_response_mut().unwrap().poll_tx_ts(), 42);
    assert!(any_sm.to_sending_final().is_ok());

    // SendingFinal: only the reset to Idle is allowed.
    assert!(any_sm.to_waiting_for_response(44).is_err());
    assert!(any_sm.to_sending_final().is_err());
    assert_eq!(any_sm.as_sending_final_mut().unwrap().poll_tx_ts(), 42);
    assert!(any_sm.to_idle().is_ok());
    assert!(any_sm.as_idle_mut().is_some());
}

#[test]
fn anchor_response_timestamps_survive_reset_to_idle() {
    let tags: [u16; 2] = [100, 101];
    let mut any_sm = AnyAnchorSideStateMachine::from(AnchorSideStateMachine::new(
        1,
        heapless::Vec::new(),
        heapless::Vec::from_slice(&tags).unwrap(),
    ));

    any_sm.to_waiting_for_response(5).unwrap();
    let machine = any_sm.as_waiting_for_response_mut().unwrap();
    machine.set_response_rx_ts(0, 77).unwrap();
    machine.set_response_rx_ts(1, 88).unwrap();
    any_sm.to_sending_final().unwrap();
    any_sm.to_idle().unwrap();

    // The reset to Idle clears only the Poll transmit timestamp; the
    // Response receive slots are retained, and the next round's phases carry
    // them until they are overwritten.
    any_sm.to_waiting_for_response(6).unwrap();
    assert_eq!(any_sm.as_waiting_for_response_mut().unwrap().poll_tx_ts(), 6);
    any_sm.to_sending_final().unwrap();
    let machine = any_sm.as_sending_final_mut().unwrap();
    assert_eq!(machine.get_response_rx_ts(0), Ok(77));
    assert_eq!(machine.get_response_rx_ts(1), Ok(88));
}

#[test]
fn anchor_response_slots_follow_tag_positions() {
    let tags: [u16; 3] = [100, 101, 102];
    let machine = AnchorSideStateMachine::new(
        1,
        heapless::Vec::new(),
        heapless::Vec::from_slice(&tags).unwrap(),
    );
    let mut machine = machine.waiting_for_response(5);
    machine.set_response_rx_ts(1, 99).unwrap();
    assert_eq!(machine.set_response_rx_ts(3, 1), Err(TwrError::IndexOutOfRange));

    let cloned = machine.clone();
    let machine = machine.sending_final();
    let cloned = cloned.sending_final();
    assert_eq!(machine.get_response_rx_ts(0), Ok(0));
    assert_eq!(machine.get_response_rx_ts(1), Ok(99));
    assert_eq!(cloned.get_response_rx_ts(1), Ok(99));
    assert_eq!(machine.get_response_rx_ts(3), Err(TwrError::IndexOutOfRange));
}
