use arp_monitor::address::{Ipv4Address, MacAddress};
use arp_monitor::arp::ArpMessage;
use arp_monitor::capture::{judge_receive_failure, ReceiveError};
use arp_monitor::event::{ArpEvent, UnsupportedOperation};
use arp_monitor::frame::DecodeError;
use arp_monitor::monitor::{
    drive, next_action, replay, settle, step, MonitorAction, MonitorInput, MonitorState, Notice, RawFrame,
};
use arp_monitor::storage::Storage;
use arp_monitor::timestamp::Timestamp;

const AT: Timestamp = Timestamp { seconds: 1_700_000_000, nanoseconds: 500_000_000 };

fn arp_frame(ethertype: u16, operation: u16, sender_ip: [u8; 4], target_ip: [u8; 4]) -> Vec<u8> {
    let mut frame = vec![0xff, 0xff, 0xff, 0xff, 0xff, 0xff, 0xaa, 0xbb, 0xcc, 0xdd, 0xee, 0xff];
    frame.extend_from_slice(&ethertype.to_be_bytes());
    frame.extend_from_slice(&[0x00, 0x01, 0x08, 0x00, 6, 4]);
    frame.extend_from_slice(&operation.to_be_bytes());
    frame.extend_from_slice(&[0xaa, 0xbb, 0xcc, 0xdd, 0xee, 0xff]);
    frame.extend_from_slice(&sender_ip);
    frame.extend_from_slice(&[0, 0, 0, 0, 0, 0]);
    frame.extend_from_slice(&target_ip);
    frame
}

fn received(frame: Vec<u8>) -> MonitorInput {
    MonitorInput::FrameReceived { frame, received_at: AT }
}

fn ready_storage() -> Storage {
    let mut storage = Storage::new();
    storage.ensure_schema();
    storage
}

fn request_event() -> ArpEvent {
    ArpEvent::Request { source: Ipv4Address(10, 0, 0, 5), dest: Ipv4Address(10, 0, 0, 1), timestamp: AT }
}

#[test]
fn each_state_waits_for_its_action() {
    assert_eq!(next_action(&MonitorState::Initializing), MonitorAction::Open);
    assert_eq!(next_action(&MonitorState::Listening), MonitorAction::Receive);
    assert_eq!(
        next_action(&MonitorState::Decoding { frame: vec![1, 2, 3], received_at: AT }),
        MonitorAction::Proceed
    );
    assert_eq!(
        next_action(&MonitorState::Persisting { event: request_event() }),
        MonitorAction::Persist(request_event())
    );
    assert_eq!(next_action(&MonitorState::Terminated), MonitorAction::Stop);
}

#[test]
fn the_monitor_starts_listening_once_opened() {
    assert_eq!(step(MonitorState::Initializing, MonitorInput::Opened), (MonitorState::Listening, None));
    assert_eq!(
        step(MonitorState::Initializing, MonitorInput::OpenFailed),
        (MonitorState::Terminated, None)
    );
}

#[test]
fn a_received_frame_is_decoded_next() {
    let frame = arp_frame(0x0806, 1, [10, 0, 0, 5], [10, 0, 0, 1]);
    assert_eq!(
        step(MonitorState::Listening, received(frame.clone())),
        (MonitorState::Decoding { frame, received_at: AT }, None)
    );
}

#[test]
fn the_cycle_of_a_request() {
    let frame = arp_frame(0x0806, 1, [10, 0, 0, 5], [10, 0, 0, 1]);
    let (state, notice) = step(MonitorState::Listening, received(frame));
    assert_eq!(notice, None);
    let (state, notice) = step(state, MonitorInput::Proceed);
    assert_eq!(notice, None);
    assert_eq!(
        state,
        MonitorState::Classifying {
            message: ArpMessage {
                operation: 1,
                sender_hardware: MacAddress(0xaa, 0xbb, 0xcc, 0xdd, 0xee, 0xff),
                sender_protocol: Ipv4Address(10, 0, 0, 5),
                target_hardware: MacAddress(0, 0, 0, 0, 0, 0),
                target_protocol: Ipv4Address(10, 0, 0, 1),
            },
            received_at: AT,
        }
    );
    let (state, notice) = step(state, MonitorInput::Proceed);
    assert_eq!(notice, None);
    assert_eq!(state, MonitorState::Persisting { event: request_event() });
    assert_eq!(next_action(&state), MonitorAction::Persist(request_event()));
    assert_eq!(step(state, MonitorInput::Stored), (MonitorState::Listening, None));
}

#[test]
fn a_failure_to_store_is_told_and_the_monitor_listens_again() {
    let state = MonitorState::Persisting { event: request_event() };
    assert_eq!(
        step(state, MonitorInput::StoreFailed),
        (MonitorState::Listening, Some(Notice::StoreFailed))
    );
}

#[test]
fn a_failed_receive_is_told_and_the_monitor_listens_again() {
    assert_eq!(
        step(MonitorState::Listening, MonitorInput::ReceiveFailed(ReceiveError::Transient)),
        (MonitorState::Listening, Some(Notice::ReceiveFailed))
    );
    assert_eq!(
        step(MonitorState::Listening, MonitorInput::ReceiveFailed(judge_receive_failure(Some(4)))),
        (MonitorState::Listening, Some(Notice::ReceiveFailed))
    );
}

#[test]
fn the_loss_of_the_channel_ends_the_monitor() {
    let lost = MonitorInput::ReceiveFailed(judge_receive_failure(Some(19)));
    let (state, notice) = step(MonitorState::Listening, lost);
    assert_eq!((&state, notice), (&MonitorState::Terminated, Some(Notice::ChannelLost)));
    assert_eq!(next_action(&state), MonitorAction::Stop);
    assert_eq!(step(state, MonitorInput::Opened), (MonitorState::Terminated, None));
    assert_eq!(
        step(MonitorState::Terminated, received(vec![0; 64])),
        (MonitorState::Terminated, None)
    );
}

#[test]
fn a_failed_receive_is_judged_by_the_error_number() {
    for code in [6, 9, 19] {
        assert_eq!(judge_receive_failure(Some(code)), ReceiveError::ChannelLost);
    }
    for code in [0, 4, 5, 11, 18, 20, 100, -1, i32::MAX] {
        assert_eq!(judge_receive_failure(Some(code)), ReceiveError::Transient);
    }
    assert_eq!(judge_receive_failure(None), ReceiveError::Transient);
}

#[test]
fn an_input_that_is_not_awaited_changes_nothing() {
    assert_eq!(step(MonitorState::Listening, MonitorInput::Stored), (MonitorState::Listening, None));
    assert_eq!(step(MonitorState::Listening, MonitorInput::Proceed), (MonitorState::Listening, None));
    assert_eq!(
        step(MonitorState::Initializing, MonitorInput::ReceiveFailed(ReceiveError::ChannelLost)),
        (MonitorState::Initializing, None)
    );
    let persisting = MonitorState::Persisting { event: request_event() };
    assert_eq!(
        step(persisting, MonitorInput::Proceed),
        (MonitorState::Persisting { event: request_event() }, None)
    );
    let decoding = MonitorState::Decoding { frame: vec![1, 2], received_at: AT };
    assert_eq!(
        step(decoding, MonitorInput::Stored),
        (MonitorState::Decoding { frame: vec![1, 2], received_at: AT }, None)
    );
}

#[test]
fn a_short_frame_goes_straight_back_to_listening() {
    for length in 0..14usize {
        let decoding = MonitorState::Decoding { frame: vec![0x55; length], received_at: AT };
        assert_eq!(
            step(decoding, MonitorInput::Proceed),
            (MonitorState::Listening, Some(Notice::Undecodable(DecodeError::MalformedFrame)))
        );
    }
}

#[test]
fn a_frame_of_another_ethertype_goes_back_silently() {
    let decoding = MonitorState::Decoding {
        frame: arp_frame(0x0800, 1, [10, 0, 0, 5], [10, 0, 0, 1]),
        received_at: AT,
    };
    assert_eq!(step(decoding, MonitorInput::Proceed), (MonitorState::Listening, None));
}

#[test]
fn an_unsupported_operation_goes_back_with_a_notice() {
    let message = ArpMessage {
        operation: 3,
        sender_hardware: MacAddress(1, 2, 3, 4, 5, 6),
        sender_protocol: Ipv4Address(10, 0, 0, 5),
        target_hardware: MacAddress(0, 0, 0, 0, 0, 0),
        target_protocol: Ipv4Address(10, 0, 0, 1),
    };
    assert_eq!(
        step(MonitorState::Classifying { message, received_at: AT }, MonitorInput::Proceed),
        (MonitorState::Listening, Some(Notice::Unsupported(UnsupportedOperation { code: 3 })))
    );
}

#[test]
fn settle_runs_the_inner_steps() {
    let request = MonitorState::Decoding {
        frame: arp_frame(0x0806, 1, [10, 0, 0, 5], [10, 0, 0, 1]),
        received_at: AT,
    };
    assert_eq!(settle(request), (MonitorState::Persisting { event: request_event() }, None));
    let unsupported = MonitorState::Decoding {
        frame: arp_frame(0x0806, 9, [10, 0, 0, 5], [10, 0, 0, 1]),
        received_at: AT,
    };
    assert_eq!(
        settle(unsupported),
        (MonitorState::Listening, Some(Notice::Unsupported(UnsupportedOperation { code: 9 })))
    );
    let malformed = MonitorState::Decoding { frame: vec![0; 13], received_at: AT };
    assert_eq!(
        settle(malformed),
        (MonitorState::Listening, Some(Notice::Undecodable(DecodeError::MalformedFrame)))
    );
    assert_eq!(settle(MonitorState::Listening), (MonitorState::Listening, None));
    assert_eq!(settle(MonitorState::Terminated), (MonitorState::Terminated, None));
}

#[test]
fn drive_records_a_request() {
    let mut storage = ready_storage();
    let frame = arp_frame(0x0806, 1, [10, 0, 0, 5], [10, 0, 0, 1]);
    assert_eq!(
        drive(MonitorState::Listening, received(frame), &mut storage),
        (MonitorState::Listening, None)
    );
    let rows = storage.requests().unwrap();
    assert_eq!(rows.len(), 1);
    assert_eq!(rows[0].source, "10.0.0.5");
    assert_eq!(rows[0].dest, "10.0.0.1");
    assert_eq!(rows[0].timestamp, 1_700_000_000_500);
    assert!(storage.replies().unwrap().is_empty());
}

#[test]
fn drive_records_a_reply() {
    let mut storage = ready_storage();
    let frame = arp_frame(0x0806, 2, [10, 0, 0, 1], [10, 0, 0, 5]);
    assert_eq!(
        drive(MonitorState::Listening, received(frame), &mut storage),
        (MonitorState::Listening, None)
    );
    let rows = storage.replies().unwrap();
    assert_eq!(rows.len(), 1);
    assert_eq!(rows[0].replier_ip, "10.0.0.1");
    assert_eq!(rows[0].replier_mac, "AA:BB:CC:DD:EE:FF");
    assert_eq!(rows[0].destination_ip, "10.0.0.5");
    assert!(storage.requests().unwrap().is_empty());
}

#[test]
fn drive_stores_nothing_for_short_frames() {
    let mut storage = ready_storage();
    for length in 0..14usize {
        assert_eq!(
            drive(MonitorState::Listening, received(vec![0x08; length]), &mut storage),
            (MonitorState::Listening, Some(Notice::Undecodable(DecodeError::MalformedFrame)))
        );
    }
    assert!(storage.requests().unwrap().is_empty());
    assert!(storage.replies().unwrap().is_empty());
}

#[test]
fn drive_stores_nothing_for_other_ethertypes() {
    let mut storage = ready_storage();
    for ethertype in [0x0800u16, 0x86dd, 0x8035, 0x0805, 0x0807] {
        let frame = arp_frame(ethertype, 1, [10, 0, 0, 5], [10, 0, 0, 1]);
        assert_eq!(
            drive(MonitorState::Listening, received(frame), &mut storage),
            (MonitorState::Listening, None)
        );
    }
    assert!(storage.requests().unwrap().is_empty());
    assert!(storage.replies().unwrap().is_empty());
}

#[test]
fn drive_stores_nothing_for_other_operations() {
    let mut storage = ready_storage();
    for code in [0u16, 3, 4, 0x0100, 0xffff] {
        let frame = arp_frame(0x0806, code, [10, 0, 0, 5], [10, 0, 0, 1]);
        assert_eq!(
            drive(MonitorState::Listening, received(frame), &mut storage),
            (MonitorState::Listening, Some(Notice::Unsupported(UnsupportedOperation { code })))
        );
    }
    assert!(storage.requests().unwrap().is_empty());
    assert!(storage.replies().unwrap().is_empty());
}

#[test]
fn drive_stores_nothing_for_malformed_arp() {
    let mut storage = ready_storage();
    let mut frame = arp_frame(0x0806, 1, [10, 0, 0, 5], [10, 0, 0, 1]);
    frame.truncate(41);
    assert_eq!(
        drive(MonitorState::Listening, received(frame), &mut storage),
        (MonitorState::Listening, Some(Notice::Undecodable(DecodeError::MalformedArp)))
    );
    assert!(storage.requests().unwrap().is_empty());
}

#[test]
fn drive_goes_on_after_a_failure_to_store() {
    let mut storage = Storage::new();
    let frame = arp_frame(0x0806, 1, [10, 0, 0, 5], [10, 0, 0, 1]);
    assert_eq!(
        drive(MonitorState::Listening, received(frame.clone()), &mut storage),
        (MonitorState::Listening, Some(Notice::StoreFailed))
    );
    storage.ensure_schema();
    assert_eq!(
        drive(MonitorState::Listening, received(frame), &mut storage),
        (MonitorState::Listening, None)
    );
    assert_eq!(storage.requests().unwrap().len(), 1);
}

#[test]
fn drive_survives_a_stream_of_mixed_frames() {
    let mut storage = ready_storage();
    let mut state = drive(MonitorState::Initializing, MonitorInput::Opened, &mut storage).0;
    assert_eq!(state, MonitorState::Listening);
    let frames = vec![
        arp_frame(0x0806, 1, [10, 0, 0, 5], [10, 0, 0, 1]),
        vec![1, 2, 3],
        arp_frame(0x0806, 2, [10, 0, 0, 1], [10, 0, 0, 5]),
        arp_frame(0x0800, 1, [10, 0, 0, 5], [10, 0, 0, 1]),
        arp_frame(0x0806, 7, [10, 0, 0, 5], [10, 0, 0, 1]),
        arp_frame(0x0806, 1, [10, 0, 0, 9], [10, 0, 0, 1]),
    ];
    for frame in frames {
        state = drive(state, received(frame), &mut storage).0;
        assert_eq!(state, MonitorState::Listening);
        state = drive(state, MonitorInput::ReceiveFailed(ReceiveError::Transient), &mut storage).0;
        assert_eq!(state, MonitorState::Listening);
    }
    let sources: Vec<&str> = storage.requests().unwrap().iter().map(|row| row.source.as_str()).collect();
    assert_eq!(sources, vec!["10.0.0.5", "10.0.0.9"]);
    assert_eq!(storage.replies().unwrap().len(), 1);
    let lost = MonitorInput::ReceiveFailed(ReceiveError::ChannelLost);
    assert_eq!(drive(state, lost, &mut storage).0, MonitorState::Terminated);
}

fn raw(bytes: Vec<u8>, seconds: u64) -> RawFrame {
    RawFrame { bytes, received_at: Timestamp { seconds, nanoseconds: 0 } }
}

#[test]
fn replay_records_the_events_of_a_capture_in_order() {
    let capture = vec![
        raw(arp_frame(0x0806, 1, [10, 0, 0, 5], [10, 0, 0, 1]), 1),
        raw(vec![0xde, 0xad], 2),
        raw(arp_frame(0x0806, 2, [10, 0, 0, 1], [10, 0, 0, 5]), 3),
        raw(arp_frame(0x86dd, 1, [10, 0, 0, 5], [10, 0, 0, 1]), 4),
        raw(arp_frame(0x0806, 4, [10, 0, 0, 5], [10, 0, 0, 1]), 5),
        raw(arp_frame(0x0806, 1, [10, 0, 0, 7], [10, 0, 0, 1]), 6),
    ];
    let mut storage = ready_storage();
    let notices = replay(&capture, &mut storage);
    assert_eq!(
        notices,
        vec![
            None,
            Some(Notice::Undecodable(DecodeError::MalformedFrame)),
            None,
            None,
            Some(Notice::Unsupported(UnsupportedOperation { code: 4 })),
            None,
        ]
    );
    let requests: Vec<(i64, &str, i64)> = storage
        .requests()
        .unwrap()
        .iter()
        .map(|row| (row.id, row.source.as_str(), row.timestamp))
        .collect();
    assert_eq!(requests, vec![(1, "10.0.0.5", 1_000), (2, "10.0.0.7", 6_000)]);
    let replies: Vec<(i64, &str, i64)> = storage
        .replies()
        .unwrap()
        .iter()
        .map(|row| (row.id, row.replier_ip.as_str(), row.timestamp))
        .collect();
    assert_eq!(replies, vec![(1, "10.0.0.1", 3_000)]);
}

#[test]
fn replay_of_nothing_changes_nothing() {
    let mut storage = ready_storage();
    assert!(replay(&Vec::new(), &mut storage).is_empty());
    assert!(storage.requests().unwrap().is_empty());
    assert!(storage.replies().unwrap().is_empty());
}

#[test]
fn replay_tells_of_every_frame_that_cannot_be_stored() {
    let capture = vec![
        raw(arp_frame(0x0806, 1, [10, 0, 0, 5], [10, 0, 0, 1]), 1),
        raw(arp_frame(0x0806, 2, [10, 0, 0, 1], [10, 0, 0, 5]), u64::MAX),
    ];
    let mut storage = Storage::new();
    assert_eq!(
        replay(&capture, &mut storage),
        vec![Some(Notice::StoreFailed), Some(Notice::StoreFailed)]
    );
    storage.ensure_schema();
    assert_eq!(replay(&capture, &mut storage), vec![None, Some(Notice::StoreFailed)]);
    assert_eq!(storage.requests().unwrap().len(), 1);
    assert!(storage.replies().unwrap().is_empty());
}

#[test]
fn replay_keeps_the_rows_that_were_there() {
    let mut storage = ready_storage();
    let first = vec![raw(arp_frame(0x0806, 1, [10, 0, 0, 5], [10, 0, 0, 1]), 1)];
    replay(&first, &mut storage);
    let before = format!("{:?}", storage.requests().unwrap()[0]);
    let second = vec![
        raw(arp_frame(0x0806, 1, [10, 0, 0, 6], [10, 0, 0, 1]), 2),
        raw(vec![], 3),
    ];
    replay(&second, &mut storage);
    assert_eq!(storage.requests().unwrap().len(), 2);
    assert_eq!(format!("{:?}", storage.requests().unwrap()[0]), before);
}
