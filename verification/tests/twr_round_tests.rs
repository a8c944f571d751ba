// Test that emulates a real-world scenario of a multiparty TWR round.

use magic_loc_protocol::anchor_state_machine::AnchorSideStateMachine;
use magic_loc_protocol::anchor_state_machine::AnyAnchorSideStateMachine;
use magic_loc_protocol::anchor_state_machine::Idle;
use magic_loc_protocol::tag_state_machine;

#[test]
fn scenario_8anchor_3tag() {
    // Assume synchronization has already been done.
    let anchor_addresses: [u16; 8] = [0, 1, 2, 3, 4, 5, 6, 7];
    let tag_addresses: [u16; 3] = [100, 101, 102];
    let mut anchor_state_machines: Vec<AnyAnchorSideStateMachine> = (0..8)
        .map(|i| {
            AnchorSideStateMachine::<Idle>::new(
                i as u16,
                heapless::Vec::from_slice(&anchor_addresses).unwrap(),
                heapless::Vec::from_slice(&tag_addresses).unwrap(),
            )
            .into()
        })
        .collect();

    let mut tag_state_machines: Vec<tag_state_machine::AnyTagSideStateMachine> = (0..3)
        .map(|i| {
            tag_state_machine::TagSideStateMachine::new(
                i as u16,
                heapless::Vec::from_slice(&anchor_addresses).unwrap(),
                heapless::Vec::from_slice(&tag_addresses).unwrap(),
            )
            .into()
        })
        .collect();

    // All tags start in the waiting-for-poll state.
    for tag_state_machine in tag_state_machines.iter_mut() {
        tag_state_machine.to_waiting_for_anchor_poll().unwrap();
    }

    for (i, anchor_state_machine) in anchor_state_machines.iter_mut().enumerate() {
        let txts = i as u64;

        anchor_state_machine.to_waiting_for_response(txts).unwrap();

        // All tags receive the poll.
        for (j, tag_state_machine) in tag_state_machines.iter_mut().enumerate() {
            let rxts = txts + j as u64;
            let tsm = tag_state_machine.as_waiting_for_anchor_poll_mut().unwrap();
            tsm.set_poll_tx_ts(i as u16, txts).unwrap();
            tsm.set_poll_rx_ts(i as u16, rxts).unwrap();
        }
    }

    // All tags send a response.
    for (i, tag_state_machine) in tag_state_machines.iter_mut().enumerate() {
        let txts = (i as u64) + 1000;

        tag_state_machine.to_waiting_for_anchor_final().unwrap();

        let tsm = tag_state_machine.as_waiting_for_anchor_final_mut().unwrap();
        tsm.set_response_tx_ts(txts);

        // All anchors receive the response.
        for (j, anchor_state_machine) in anchor_state_machines.iter_mut().enumerate() {
            let rxts = txts + j as u64;
            let machine = anchor_state_machine.as_waiting_for_response_mut().unwrap();
            machine.set_response_rx_ts(i, rxts).unwrap();
        }
    }

    // All anchors send the final.
    for (i, anchor_state_machine) in anchor_state_machines.iter_mut().enumerate() {
        let txts = (i as u64) + 2000;
        anchor_state_machine.to_sending_final().unwrap();

        // All tags receive the final.
        for (j, tag_state_machine) in tag_state_machines.iter_mut().enumerate() {
            let rxts = txts + j as u64;
            let tsm = tag_state_machine.as_waiting_for_anchor_final_mut().unwrap();
            tsm.set_response_rx_ts(
                i as u16,
                anchor_state_machine
                    .as_sending_final_mut()
                    .unwrap()
                    .get_response_rx_ts(j)
                    .unwrap(),
            )
            .unwrap();
            tsm.set_final_tx_ts(i as u16, txts).unwrap();
            tsm.set_final_rx_ts(i as u16, rxts).unwrap();
        }

        anchor_state_machine.to_idle().unwrap();
    }

    // Every anchor is back in Idle; every tag holds the timestamps of the
    // full round, consistently indexed by anchor position.
    for (i, anchor_state_machine) in anchor_state_machines.iter_mut().enumerate() {
        assert_eq!(anchor_state_machine.as_idle_mut().unwrap().address(), i as u16);
    }
    for (j, tag_state_machine) in tag_state_machines.iter_mut().enumerate() {
        let tsm = tag_state_machine.as_waiting_for_anchor_final_mut().unwrap();
        assert_eq!(tsm.response_tx_ts(), (j as u64) + 1000);
        for i in 0..8 {
            assert_eq!(tsm.get_poll_tx_ts(i), Ok(i as u64));
            assert_eq!(tsm.get_poll_rx_ts(i), Ok((i + j) as u64));
            // The value each anchor recorded for this tag's response, handed
            // back through the Final exchange.
            assert_eq!(tsm.get_response_rx_ts(i), Ok(1000 + (j + i) as u64));
            assert_eq!(tsm.get_final_tx_ts(i), Ok(2000 + i as u64));
            assert_eq!(tsm.get_final_rx_ts(i), Ok(2000 + (i + j) as u64));
        }
    }
}
