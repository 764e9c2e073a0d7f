use fixclient::builder;
use fixclient::config::{FixDictionary, FixSessionConfig};
use fixclient::heartbeat::{plan_on_timeout, timer_period_ms};
use fixclient::messages::{
    FieldOrdTypeEnum, FieldSideEnum, FixFrame, FixHeader, FixMessage, MsgKind,
};
use fixclient::resend::{build_resend_request_response, MessageToReSend};
use fixclient::session::{Command, SessionStateImpl, TimerEventKind};
use fixclient::store::MemoryMessageStore;
use fixclient::SessionError;

fn config() -> FixSessionConfig {
    FixSessionConfig::new(
        "qualifier",
        "sender",
        "target",
        "hostname",
        1234,
        60,
        "log",
        "store",
        FixDictionary::Fix42,
    )
}

fn order(seq: i32) -> FixFrame {
    builder::build_new_order_single(
        seq,
        false,
        "cl1",
        "AAPL",
        100,
        594_200,
        FieldSideEnum::Buy,
        FieldOrdTypeEnum::Limit,
    )
}

fn dup_order(seq: i32) -> FixFrame {
    builder::build_new_order_single(
        seq,
        true,
        "cl1",
        "AAPL",
        100,
        594_200,
        FieldSideEnum::Buy,
        FieldOrdTypeEnum::Limit,
    )
}

fn test_request(seq: i32, id: &str) -> FixFrame {
    FixFrame {
        header: FixHeader {
            msg_seq_num: seq,
            msg_type: MsgKind::TestRequest,
            sending_time: 0,
            sender_comp_id: String::new(),
            target_comp_id: String::new(),
            begin_string: String::new(),
            orig_sending_time: None,
            poss_dup_flag: None,
        },
        message: FixMessage::TestRequest { test_req_id: id.to_string() },
    }
}

/// A session that has completed the logon handshake: sent logon with
/// sequence 1, received logon with sequence 1.
fn operational_session() -> SessionStateImpl {
    let cfg = config();
    let store = MemoryMessageStore::new(&cfg).unwrap();
    let mut s = SessionStateImpl::new(&cfg, store);
    s.sent_at(&builder::build_logon(1, None), 10).unwrap();
    s.received_at(&builder::build_logon(1, None), 20).unwrap();
    assert!(s.is_operational());
    s
}

#[test]
fn test_fresh_session_not_operational() {
    let cfg = config();
    let store = MemoryMessageStore::new(&cfg).unwrap();
    let s = SessionStateImpl::new(&cfg, store);
    assert!(!s.is_operational());
    assert_eq!("us connected - them connected", s.state_machine.describe());
}

#[test]
fn test_init_commands() {
    let cfg = config();
    let store = MemoryMessageStore::new(&cfg).unwrap();
    let mut s = SessionStateImpl::new(&cfg, store);
    let cmds = s.init();
    assert_eq!(2, cmds.len());
    match &cmds[0] {
        Command::SendMessage(FixMessage::Logon {
            heart_bt_int,
            reset_seq_num_flag,
            ..
        }) => {
            assert_eq!(60, *heart_bt_int);
            assert_eq!(Some(false), *reset_seq_num_flag);
        },
        other => panic!("expected a logon, got {:?}", other),
    }
    match &cmds[1] {
        Command::ScheduleHeartbeat(p) => assert_eq!(15_000, *p),
        other => panic!("expected a timer, got {:?}", other),
    }
}

#[test]
fn test_build_frame_allocates_in_order() {
    let mut s = operational_session();
    let f1 = s.build_frame_at(order(0).message, true, 123).unwrap();
    let f2 = s.build_frame_at(order(0).message, true, 124).unwrap();
    assert_eq!(1, f1.header.msg_seq_num);
    assert_eq!(2, f2.header.msg_seq_num);
    assert_eq!(123, f1.header.sending_time);
    assert_eq!("sender", f1.header.sender_comp_id);
    assert_eq!("target", f1.header.target_comp_id);
    assert_eq!("FIX.4.2", f1.header.begin_string);
    assert_eq!(None, f1.header.poss_dup_flag);
}

#[test]
fn test_replay_frame_round_trip() {
    let mut s = operational_session();
    let original = s.build_frame_at(order(0).message, true, 111).unwrap();
    let entry = MessageToReSend {
        seq: original.header.msg_seq_num,
        message: original.message.clone(),
        orig_sending_time: original.header.sending_time,
    };
    let replay = s.build_frame_for_resend_at(entry, 222);
    assert_eq!(original.header.msg_seq_num, replay.header.msg_seq_num);
    assert_eq!(Some(111), replay.header.orig_sending_time);
    assert_eq!(Some(true), replay.header.poss_dup_flag);
    assert_eq!(222, replay.header.sending_time);
    assert_eq!(original.header.sender_comp_id, replay.header.sender_comp_id);
    match &replay.message {
        FixMessage::NewOrderSingle { cl_ord_id, symbol, .. } => {
            assert_eq!("cl1", cl_ord_id);
            assert_eq!("AAPL", symbol);
        },
        other => panic!("unexpected body: {:?}", other),
    }
}

#[test]
fn test_gap_detect_and_repair() {
    // Expected inbound is 2 after the handshake; sequence 3 arrives first.
    let mut s = operational_session();
    let cmds = s.received_at(&order(3), 30).unwrap();
    assert_eq!(1, cmds.len());
    match &cmds[0] {
        Command::SendMessage(FixMessage::ResendRequest { begin_seq_no, end_seq_no }) => {
            assert_eq!((2, 2), (*begin_seq_no, *end_seq_no));
        },
        other => panic!("expected a resend request, got {:?}", other),
    }
    assert_eq!("us operational - them resync", s.state_machine.describe());

    // The missing frame arrives as a replay: the gap closes.
    let cmds = s.received_at(&dup_order(2), 40).unwrap();
    assert!(cmds.is_empty());
    assert_eq!("us operational - them operational", s.state_machine.describe());
}

#[test]
fn test_low_sequence_without_dup_disconnects() {
    let mut s = operational_session();
    let cmds = s.received_at(&order(1), 30).unwrap();
    assert_eq!(2, cmds.len());
    match &cmds[0] {
        Command::SendMessage(FixMessage::Logout { text }) => {
            assert_eq!(Some("sequence number lower than expected".to_string()), *text);
        },
        other => panic!("expected a logout, got {:?}", other),
    }
    assert!(matches!(cmds[1], Command::Disconnect));
}

#[test]
fn test_low_sequence_with_dup_is_ignored() {
    let mut s = operational_session();
    let cmds = s.received_at(&dup_order(1), 30).unwrap();
    assert!(cmds.is_empty());
    assert!(s.is_operational());
}

#[test]
fn test_test_request_earns_heartbeat_reply() {
    let mut s = operational_session();
    let cmds = s.received_at(&test_request(2, "ping"), 30).unwrap();
    assert_eq!(1, cmds.len());
    match &cmds[0] {
        Command::SendMessage(FixMessage::Heartbeat { test_req_id }) => {
            assert_eq!(Some("ping".to_string()), *test_req_id);
        },
        other => panic!("expected a heartbeat, got {:?}", other),
    }
}

#[test]
fn test_resend_request_is_answered_with_gap_fill() {
    // Only the logon (an admin message) was sent, so the whole requested
    // range collapses into one gap fill carrying the possible-duplicate mark.
    let mut s = operational_session();
    let cmds = s.received_at(&builder::build_resend_req(2, 1, 1), 30).unwrap();
    assert_eq!(1, cmds.len());
    match &cmds[0] {
        Command::SendFrame(f) => {
            assert_eq!(1, f.header.msg_seq_num);
            assert_eq!(Some(true), f.header.poss_dup_flag);
            match &f.message {
                FixMessage::SequenceReset { gap_fill_flag, new_seq_no } => {
                    assert_eq!(Some(true), *gap_fill_flag);
                    assert_eq!(2, *new_seq_no);
                },
                other => panic!("expected a gap fill, got {:?}", other),
            }
        },
        other => panic!("expected a replayed frame, got {:?}", other),
    }
    assert_eq!("us resync - them operational", s.state_machine.describe());
}

#[test]
fn test_sequence_reset_received_closes_gap() {
    let mut s = operational_session();
    s.received_at(&order(5), 30).unwrap();
    assert_eq!("us operational - them resync", s.state_machine.describe());
    let cmds = s.received_at(&builder::build_sequence_reset(2, 5, Some(true)), 40).unwrap();
    assert!(cmds.is_empty());
    assert_eq!("us operational - them operational", s.state_machine.describe());
    assert_eq!(5, s.state_machine.store.target_seq);
}

#[test]
fn test_resend_plan_mixes_orders_and_gap_fills() {
    let cfg = config();
    let mut store = MemoryMessageStore::new(&cfg).unwrap();
    store.sent(&builder::build_logon(1, None)).unwrap();
    store.sent(&order(2)).unwrap();
    store.sent(&builder::build_logon(3, None)).unwrap();
    store.sent(&builder::build_logon(4, None)).unwrap();
    store.sent(&order(5)).unwrap();
    let plan = build_resend_request_response(&store, 1, 5).unwrap();
    assert_eq!(4, plan.len());
    assert_eq!(1, plan[0].seq);
    assert!(matches!(
        plan[0].message,
        FixMessage::SequenceReset { gap_fill_flag: Some(true), new_seq_no: 2 }
    ));
    assert_eq!(2, plan[1].seq);
    assert!(matches!(plan[1].message, FixMessage::NewOrderSingle { .. }));
    assert_eq!(3, plan[2].seq);
    assert!(matches!(
        plan[2].message,
        FixMessage::SequenceReset { gap_fill_flag: Some(true), new_seq_no: 5 }
    ));
    assert_eq!(5, plan[3].seq);
    assert!(matches!(plan[3].message, FixMessage::NewOrderSingle { .. }));
}

#[test]
fn test_resend_plan_end_zero_means_through_latest() {
    let cfg = config();
    let mut store = MemoryMessageStore::new(&cfg).unwrap();
    let s1 = store.incr_sender_seq_num().unwrap();
    let s2 = store.incr_sender_seq_num().unwrap();
    store.sent(&order(s1)).unwrap();
    store.sent(&order(s2)).unwrap();
    let plan = build_resend_request_response(&store, 1, 0).unwrap();
    assert_eq!(2, plan.len());
    assert_eq!(1, plan[0].seq);
    assert_eq!(2, plan[1].seq);
}

#[test]
fn test_resend_data_loss_is_reported() {
    let cfg = config();
    let mut store = MemoryMessageStore::new(&cfg).unwrap();
    store.sent(&order(1)).unwrap();
    let r = build_resend_request_response(&store, 1, 3);
    assert!(matches!(r, Err(SessionError::ResendDataLoss { missing_seq: 2 })));
}

#[test]
fn test_heartbeat_thresholds() {
    // 60 s interval: the liveness threshold is 45 000 ms.
    let quiet = plan_on_timeout(true, Some(0), Some(0), 44_999, 60);
    assert!(!quiet.send_test_request);
    assert!(!quiet.send_heartbeat);
    assert!(quiet.reschedule);

    let due = plan_on_timeout(true, Some(0), Some(0), 45_000, 60);
    assert!(due.send_test_request);
    assert!(due.send_heartbeat);
    assert!(due.reschedule);

    let idle = plan_on_timeout(false, Some(0), Some(0), 45_000, 60);
    assert!(!idle.send_test_request);
    assert!(!idle.send_heartbeat);
    assert!(idle.reschedule);

    assert_eq!(15_000, timer_period_ms(60));
}

#[test]
fn test_on_timeout_quiet_then_due() {
    let mut s = operational_session();
    s.sent_at(&order(0), 1_000).unwrap();

    // Within the threshold in both directions: only the rearm command.
    let cmds = s.on_timeout_at(TimerEventKind::Heartbeat, 44_000);
    assert_eq!(1, cmds.len());
    assert!(matches!(cmds[0], Command::ScheduleHeartbeat(15_000)));

    // Repeated firing while still within the threshold stays quiet.
    let cmds = s.on_timeout_at(TimerEventKind::Heartbeat, 44_500);
    assert_eq!(1, cmds.len());

    // Both directions past the threshold: one test request, one heartbeat,
    // and the rearm.
    let cmds = s.on_timeout_at(TimerEventKind::Heartbeat, 50_000);
    assert_eq!(3, cmds.len());
    match &cmds[0] {
        Command::SendMessage(FixMessage::TestRequest { test_req_id }) => {
            assert_eq!("TEST", test_req_id);
        },
        other => panic!("expected a test request, got {:?}", other),
    }
    assert!(matches!(
        cmds[1],
        Command::SendMessage(FixMessage::Heartbeat { test_req_id: None })
    ));
    assert!(matches!(cmds[2], Command::ScheduleHeartbeat(15_000)));
}

#[test]
fn test_timer_rearmed_when_not_operational() {
    let cfg = config();
    let store = MemoryMessageStore::new(&cfg).unwrap();
    let mut s = SessionStateImpl::new(&cfg, store);
    let cmds = s.on_timeout_at(TimerEventKind::Heartbeat, 1_000_000);
    assert_eq!(1, cmds.len());
    assert!(matches!(cmds[0], Command::ScheduleHeartbeat(15_000)));
}

#[test]
fn test_new_timeout_keeps_handle() {
    let cfg = config();
    let store = MemoryMessageStore::new(&cfg).unwrap();
    let mut s = SessionStateImpl::new(&cfg, store);
    s.new_timeout(7, TimerEventKind::Heartbeat);
    assert_eq!(Some(7), s.heartbeat_timeout);
    s.close().unwrap();
}

#[test]
fn test_reset_on_init_when_configured() {
    let cfg = config().with_reset_seq_num(true);
    let mut store = MemoryMessageStore::new(&cfg).unwrap();
    store.incr_sender_seq_num().unwrap();
    store.sent(&order(1)).unwrap();
    let mut s = SessionStateImpl::new(&cfg, store);
    let cmds = s.init();
    assert_eq!(2, cmds.len());
    assert_eq!(1, s.state_machine.store.sender_seq);
    assert!(s.state_machine.store.sent_log.is_empty());
    match &cmds[0] {
        Command::SendMessage(FixMessage::Logon { reset_seq_num_flag, .. }) => {
            assert_eq!(Some(true), *reset_seq_num_flag);
        },
        other => panic!("expected a logon, got {:?}", other),
    }
}

#[test]
fn test_unexpected_logon_disconnects() {
    let mut s = operational_session();
    let cmds = s.received_at(&builder::build_logon(2, None), 30).unwrap();
    assert_eq!(2, cmds.len());
    match &cmds[0] {
        Command::SendMessage(FixMessage::Logout { text }) => {
            assert_eq!(Some("logon received out of order".to_string()), *text);
        },
        other => panic!("expected a logout, got {:?}", other),
    }
    assert!(matches!(cmds[1], Command::Disconnect));
}

#[test]
fn test_sequence_reset_backwards_disconnects() {
    let mut s = operational_session();
    // Expected inbound is 2; a reset to 1 would move the counter backwards.
    let cmds = s.received_at(&builder::build_sequence_reset(2, 1, Some(true)), 30).unwrap();
    assert_eq!(2, cmds.len());
    assert!(matches!(cmds[1], Command::Disconnect));
    assert_eq!(2, s.state_machine.store.target_seq);
}

#[test]
fn test_resend_request_with_gap_combines_actions() {
    // Expected inbound is 2, but the resend request itself carries 3: we
    // owe the replay first, then our own resend request for the gap.
    let mut s = operational_session();
    let cmds = s.received_at(&builder::build_resend_req(3, 1, 1), 30).unwrap();
    assert_eq!(2, cmds.len());
    match &cmds[0] {
        Command::SendFrame(f) => {
            assert_eq!(1, f.header.msg_seq_num);
            assert!(matches!(
                f.message,
                FixMessage::SequenceReset { gap_fill_flag: Some(true), new_seq_no: 2 }
            ));
        },
        other => panic!("expected a replayed frame, got {:?}", other),
    }
    match &cmds[1] {
        Command::SendMessage(FixMessage::ResendRequest { begin_seq_no, end_seq_no }) => {
            assert_eq!((2, 2), (*begin_seq_no, *end_seq_no));
        },
        other => panic!("expected a resend request, got {:?}", other),
    }
    assert_eq!("us resync - them resync", s.state_machine.describe());
}

#[test]
fn test_open_ended_obligation_closed_by_latest_send() {
    let cfg = config();
    let store = MemoryMessageStore::new(&cfg).unwrap();
    let mut sm = fixclient::syncstate::FixSyncState::new(store);
    sm.register_sent(&builder::build_logon(1, None)).unwrap();
    sm.register_recv(&builder::build_logon(1, None)).unwrap();
    // An open-ended request: end 0 means "through the most recent".
    sm.register_recv(&builder::build_resend_req(2, 1, 0)).unwrap();
    assert_eq!("us resync - them operational", sm.describe());
    // Allocate up to 2, so the most recent allocated number is 2.
    sm.store.incr_sender_seq_num().unwrap();
    sm.store.incr_sender_seq_num().unwrap();
    sm.register_sent(&dup_order(1)).unwrap();
    assert_eq!("us resync - them operational", sm.describe());
    sm.register_sent(&dup_order(2)).unwrap();
    assert_eq!("us operational - them operational", sm.describe());
}
