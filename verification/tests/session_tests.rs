use mw_bridge::session::{Effect, ReadOutcome, Session};

#[test]
fn five_empty_reads_send_one_keepalive() {
    let mut session = Session::new();
    for attempt in 0..5 {
        let step = session.on_read(&ReadOutcome::Nothing);
        assert!(matches!(step.effect, Effect::NothingRead));
        assert!(step.reply.is_none());
        assert_eq!(step.send_keepalive, attempt == 4);
    }
}

#[test]
fn keepalive_is_due_once_per_cycle_indefinitely() {
    let mut session = Session::new();
    for attempt in 0..20 {
        let step = session.on_read(&ReadOutcome::Nothing);
        assert_eq!(step.send_keepalive, attempt % 5 == 4);
    }
}

#[test]
fn first_item_count_frame_triggers_one_get_item() {
    let mut session = Session::new();
    let mut frame = [0u8; 16];
    frame[0] = 0x02;
    frame[2] = 0x07;
    let step = session.on_read(&ReadOutcome::Frame(frame));
    match step.effect {
        Effect::InGameItemCount { item_count } => assert_eq!(item_count, 7),
        other => panic!("expected an item-count effect, got {:?}", other),
    }
    let mut expected = [0u8; 16];
    expected[0] = 0x02;
    expected[2] = 0x0d;
    assert_eq!(step.reply, Some(expected));
    let step2 = session.on_read(&ReadOutcome::Frame(frame));
    assert!(matches!(step2.effect, Effect::InGameItemCount { item_count: 7 }));
    assert!(step2.reply.is_none());
}

#[test]
fn item_count_is_decoded_big_endian() {
    let mut session = Session::new();
    let mut frame = [0u8; 16];
    frame[0] = 0x02;
    frame[1] = 0x12;
    frame[2] = 0x34;
    let step = session.on_read(&ReadOutcome::Frame(frame));
    match step.effect {
        Effect::InGameItemCount { item_count } => assert_eq!(item_count, 0x1234),
        other => panic!("expected an item-count effect, got {:?}", other),
    }
}

#[test]
fn send_item_frame_is_logged_and_unanswered() {
    let mut session = Session::new();
    let mut frame = [0u8; 16];
    frame[0] = 0x03;
    for i in 1..9 {
        frame[i] = i as u8;
    }
    frame[9] = 0x00;
    frame[10] = 0x05;
    frame[11] = 0x02;
    let step = session.on_read(&ReadOutcome::Frame(frame));
    match step.effect {
        Effect::SendItem { override_key, item_kind, target_world } => {
            assert_eq!(override_key, [1, 2, 3, 4, 5, 6, 7, 8]);
            assert_eq!(item_kind, 0x0005);
            assert_eq!(target_world, 2);
        }
        other => panic!("expected a send-item effect, got {:?}", other),
    }
    assert!(step.reply.is_none());
}

#[test]
fn ping_frame_is_a_quiet_acknowledgement() {
    let mut session = Session::new();
    let step = session.on_read(&ReadOutcome::Frame([0u8; 16]));
    assert!(matches!(step.effect, Effect::Ping));
    assert!(step.reply.is_none());
}

#[test]
fn file_select_frame_reports_the_player_name() {
    let mut session = Session::new();
    let mut frame = [0u8; 16];
    frame[0] = 0x01;
    for i in 1..9 {
        frame[i] = 0xd0 + i as u8;
    }
    let step = session.on_read(&ReadOutcome::Frame(frame));
    match step.effect {
        Effect::FileSelect { player_name } => {
            assert_eq!(
                player_name,
                [0xd1, 0xd2, 0xd3, 0xd4, 0xd5, 0xd6, 0xd7, 0xd8],
            );
        }
        other => panic!("expected a file-select effect, got {:?}", other),
    }
    assert!(step.reply.is_none());
}

#[test]
fn item_received_frame_is_acknowledged_quietly() {
    let mut session = Session::new();
    let mut frame = [0u8; 16];
    frame[0] = 0x04;
    let step = session.on_read(&ReadOutcome::Frame(frame));
    assert!(matches!(step.effect, Effect::ItemReceived));
    assert!(step.reply.is_none());
}

#[test]
fn unknown_opcode_is_logged_raw_and_not_fatal() {
    let mut session = Session::new();
    let mut frame = [0u8; 16];
    frame[0] = 0x09;
    frame[15] = 0x77;
    let step = session.on_read(&ReadOutcome::Frame(frame));
    match step.effect {
        Effect::Unrecognized { frame: raw } => assert_eq!(raw, frame),
        other => panic!("expected the raw frame to be logged, got {:?}", other),
    }
    assert!(step.reply.is_none());
}

#[test]
fn item_count_frame_still_counts_toward_the_cycle() {
    let mut session = Session::new();
    let mut frame = [0u8; 16];
    frame[0] = 0x02;
    for _ in 0..4 {
        let step = session.on_read(&ReadOutcome::Nothing);
        assert!(!step.send_keepalive);
    }
    let step = session.on_read(&ReadOutcome::Frame(frame));
    assert!(step.send_keepalive);
}
