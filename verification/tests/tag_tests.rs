use magic_loc_protocol::TwrError;
use magic_loc_protocol::tag_state_machine::AnyTagSideStateMachine;
use magic_loc_protocol::tag_state_machine::Idle;
use magic_loc_protocol::tag_state_machine::TagSideStateMachine;

#[test]
fn test_tag_state_machine() {
    let anchors: [u16; 8] = [0, 1, 2, 3, 4, 5, 6, 7];
    let tags = [100u16, 101, 102];
    let state_machine = TagSideStateMachine::<Idle>::new(
        0,
        heapless::Vec::from_slice(&anchors).unwrap(),
        heapless::Vec::from_slice(&tags).unwrap(),
    );

    let mut state_machine = state_machine.waiting_for_anchor_poll();

    state_machine.set_poll_tx_ts(0, 0x1234_5678_9abc_def0).unwrap();

    let mut state_machine = state_machine.waiting_for_anchor_final();

    state_machine.set_response_tx_ts(0x1234_5678_9abc_def1);
    state_machine.set_response_rx_ts(0, 0x1234_5678_9abc_def2).unwrap();
    state_machine.set_final_tx_ts(0, 0x1234_5678_9abc_def3).unwrap();
    state_machine.set_final_rx_ts(0, 0x1234_5678_9abc_def4).unwrap();

    let state_machine = state_machine.idle();

    assert_eq!(state_machine.poll_tx_ts_len(), 8);
}

#[test]
fn tag_collections_survive_reset_to_idle() {
    let anchors: [u16; 2] = [5, 6];
    let state_machine = TagSideStateMachine::<Idle>::new(
        100,
        heapless::Vec::from_slice(&anchors).unwrap(),
        heapless::Vec::new(),
    );
    let mut state_machine = state_machine.waiting_for_anchor_poll();
    state_machine.set_poll_tx_ts_idx(0, 11).unwrap();
    state_machine.set_poll_rx_ts_idx(1, 22).unwrap();
    let mut state_machine = state_machine.waiting_for_anchor_final();
    state_machine.set_response_tx_ts(33);
    state_machine.set_response_rx_ts_idx(0, 44).unwrap();
    state_machine.set_final_tx_ts_idx(1, 55).unwrap();
    state_machine.set_final_rx_ts_idx(0, 66).unwrap();
    let state_machine = state_machine.idle();

    // The reset to Idle retains every collected timestamp, so the
    // ranging-math consumer may still read them at or after the reset.
    assert_eq!(state_machine.get_poll_tx_ts(0), Ok(11));
    assert_eq!(state_machine.get_poll_rx_ts(1), Ok(22));
    assert_eq!(state_machine.response_tx_ts(), 33);
    assert_eq!(state_machine.get_response_rx_ts(0), Ok(44));
    assert_eq!(state_machine.get_final_tx_ts(1), Ok(55));
    assert_eq!(state_machine.get_final_rx_ts(0), Ok(66));
}

#[test]
fn tag_transitions_succeed_only_from_predecessor_phase() {
    let mut any_sm = AnyTagSideStateMachine::from(TagSideStateMachine::new(
        100,
        heapless::Vec::new(),
        heapless::Vec::new(),
    ));

    // Idle: only the advance to WaitingForAnchorPoll is allowed.
    assert!(any_sm.to_waiting_for_anchor_final().is_err());
    assert!(any_sm.as_idle_mut().is_some());
    assert!(any_sm.to_waiting_for_anchor_poll().is_ok());

    // WaitingForAnchorPoll: only the advance to WaitingForAnchorFinal is
    // allowed.
    assert!(any_sm.to_waiting_for_anchor_poll().is_err());
    assert!(any_sm.as_waiting_for_anchor_poll_mut().is_some());
    assert!(any_sm.to_waiting_for_anchor_final().is_ok());

    // WaitingForAnchorFinal: no further wrapper transition exists.
    assert!(any_sm.to_waiting_for_anchor_poll().is_err());
    assert!(any_sm.to_waiting_for_anchor_final().is_err());
    assert!(any_sm.as_waiting_for_anchor_final_mut().is_some());
}

#[test]
fn address_and_index_setters_agree() {
    let anchors: [u16; 3] = [5, 6, 7];
    let tags = [100u16];

    let by_addr = TagSideStateMachine::<Idle>::new(
        100,
        heapless::Vec::from_slice(&anchors).unwrap(),
        heapless::Vec::from_slice(&tags).unwrap(),
    );
    let by_idx = TagSideStateMachine::<Idle>::new(
        100,
        heapless::Vec::from_slice(&anchors).unwrap(),
        heapless::Vec::from_slice(&tags).unwrap(),
    );

    let mut by_addr = by_addr.waiting_for_anchor_poll();
    let mut by_idx = by_idx.waiting_for_anchor_poll();

    by_addr.set_poll_tx_ts(6, 42).unwrap();
    by_idx.set_poll_tx_ts_idx(1, 42).unwrap();

    for i in 0..3 {
        assert_eq!(by_addr.get_poll_tx_ts(i), by_idx.get_poll_tx_ts(i));
    }
    assert_eq!(by_addr.get_poll_tx_ts(1), Ok(42));
}

#[test]
fn absent_address_is_an_error_and_changes_nothing() {
    let anchors: [u16; 3] = [5, 6, 7];
    let state_machine = TagSideStateMachine::<Idle>::new(
        100,
        heapless::Vec::from_slice(&anchors).unwrap(),
        heapless::Vec::new(),
    );
    let mut state_machine = state_machine.waiting_for_anchor_poll();

    assert_eq!(state_machine.set_poll_tx_ts(99, 1), Err(TwrError::AddressNotFound));
    assert_eq!(state_machine.set_poll_rx_ts(99, 1), Err(TwrError::AddressNotFound));
    assert_eq!(state_machine.set_poll_tx_ts_idx(3, 1), Err(TwrError::IndexOutOfRange));
    for i in 0..3 {
        assert_eq!(state_machine.get_poll_tx_ts(i), Ok(0));
        assert_eq!(state_machine.get_poll_rx_ts(i), Ok(0));
    }

    let mut state_machine = state_machine.waiting_for_anchor_final();
    assert_eq!(state_machine.set_response_rx_ts(99, 1), Err(TwrError::AddressNotFound));
    assert_eq!(state_machine.set_final_tx_ts(99, 1), Err(TwrError::AddressNotFound));
    assert_eq!(state_machine.set_final_rx_ts(99, 1), Err(TwrError::AddressNotFound));
    for i in 0..3 {
        assert_eq!(state_machine.get_response_rx_ts(i), Ok(0));
        assert_eq!(state_machine.get_final_tx_ts(i), Ok(0));
        assert_eq!(state_machine.get_final_rx_ts(i), Ok(0));
    }
}
