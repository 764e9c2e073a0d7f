use fixclient::builder;
use fixclient::config::{FixDictionary, FixSessionConfig};
use fixclient::messages::{FieldOrdTypeEnum, FieldSideEnum, FixFrame};
use fixclient::store::MemoryMessageStore;
use fixclient::syncstate::{FixSyncState, TransitionAction};

#[test]
fn test_initial_state() {
    let store = create_store(|_| {});
    let sm = FixSyncState::new(store);

    assert_eq!("us connected - them connected", sm.describe());
}

#[test]
fn test_logon_sent_state() {
    let store = create_store(|_| {});
    let mut sm = FixSyncState::new(store);

    let _res = sm.register_sent(&builder::build_logon(1, None)).expect("success");

    assert_eq!("us logon - them logon", sm.describe());
}

#[test]
fn test_logon_handshake_state() {
    let store = create_store(|_| {});
    let mut sm = FixSyncState::new(store);

    let _send_res = sm.register_sent(&builder::build_logon(1, None)).expect("success");
    let recv_res = sm.register_recv(&builder::build_logon(1, None)).expect("success");

    assert_eq!("us operational - them operational", sm.describe());
    match recv_res {
        TransitionAction::NoAction => {
            // expected
        },
        _ => {
            panic!("expecting None, but got {:?}", recv_res);
        },
    }
}

#[test]
fn test_server_sending_a_resend_request() {
    let store = create_store(|_| {});
    let mut sm = FixSyncState::new(store);

    let _send_res = sm.register_sent(&builder::build_logon(1, None)).expect("success");
    sm.register_recv(&builder::build_logon(1, None)).expect("success");
    let recv_res = sm.register_recv(&builder::build_resend_req(2, 1, 10)).expect("success");

    assert_eq!("us resync - them operational", sm.describe());
    match recv_res {
        TransitionAction::DoResendRange(range) => {
            assert_eq!((1, 10), range);
            // expected
        },
        _ => {
            panic!("expecting None, but got {:?}", recv_res);
        },
    }
}

#[test]
fn test_responding_to_a_resend_request_with_a_full_gap_fill() {
    let store = create_store(|_| {});
    let mut sm = FixSyncState::new(store);

    let _send_res = sm.register_sent(&builder::build_logon(1, None)).expect("success");
    sm.register_recv(&builder::build_logon(1, None)).expect("success");
    sm.register_recv(&builder::build_resend_req(2, 1, 10)).expect("success");
    let _ = sm.register_sent(&builder::build_sequence_reset(2, 11, Some(true)));

    assert_eq!("us operational - them operational", sm.describe());
}

#[test]
fn test_responding_to_a_resend_request_with_individual_messages() {
    let store = create_store(|_| {});
    let mut sm = FixSyncState::new(store);

    let _send_res = sm.register_sent(&builder::build_logon(1, None)).expect("success");
    sm.register_recv(&builder::build_logon(1, None)).expect("success");
    sm.register_recv(&builder::build_resend_req(2, 2, 5)).expect("success");
    let _ = sm.register_sent(&build_new_order_single(2, true, "cl1", "AAPL", 100.0, 594.2, FieldSideEnum::Buy, FieldOrdTypeEnum::Limit));
    let _ = sm.register_sent(&build_new_order_single(3, true, "cl2", "AAPL", 100.0, 594.2, FieldSideEnum::Buy, FieldOrdTypeEnum::Limit));
    let _ = sm.register_sent(&build_new_order_single(4, true, "cl3", "AAPL", 100.0, 594.2, FieldSideEnum::Buy, FieldOrdTypeEnum::Limit));

    assert_eq!("us resync - them operational", sm.describe());
}

#[test]
fn test_responding_to_a_resend_request_with_individual_messages_complete() {
    let store = create_store(|_| {});
    let mut sm = FixSyncState::new(store);

    let _send_res = sm.register_sent(&builder::build_logon(1, None)).expect("success");
    sm.register_recv(&builder::build_logon(1, None)).expect("success");
    sm.register_recv(&builder::build_resend_req(2, 2, 5)).expect("success");
    let _ = sm.register_sent(&build_new_order_single(2, true, "cl1", "AAPL", 100.0, 594.2, FieldSideEnum::Buy, FieldOrdTypeEnum::Limit));
    let _ = sm.register_sent(&build_new_order_single(3, true, "cl2", "AAPL", 100.0, 594.2, FieldSideEnum::Buy, FieldOrdTypeEnum::Limit));
    let _ = sm.register_sent(&build_new_order_single(4, true, "cl3", "AAPL", 100.0, 594.2, FieldSideEnum::Buy, FieldOrdTypeEnum::Limit));
    let _ = sm.register_sent(&build_new_order_single(5, true, "cl4", "AAPL", 100.0, 594.2, FieldSideEnum::Buy, FieldOrdTypeEnum::Limit));

    assert_eq!("us operational - them operational", sm.describe());
}

/// Adapts the float quantity and price of the original order builder to the
/// library's scaled-integer representation (price in thousandths).
fn build_new_order_single(
    seq: i32,
    poss_dup: bool,
    cl_ord_id: &str,
    symbol: &str,
    qty: f64,
    price: f64,
    side: FieldSideEnum,
    ord_type: FieldOrdTypeEnum,
) -> FixFrame {
    builder::build_new_order_single(
        seq,
        poss_dup,
        cl_ord_id,
        symbol,
        qty as i64,
        (price * 1000.0) as i64,
        side,
        ord_type,
    )
}

fn create_store<F>(f: F) -> MemoryMessageStore
where
    F: FnOnce(&mut MemoryMessageStore) -> (),
{
    let cfg = FixSessionConfig::new(
        "qualifier",
        "sender",
        "target",
        "hostname",
        1234,
        60,
        "log",
        "store",
        FixDictionary::Fix42,
    );
    let mut store = MemoryMessageStore::new(&cfg).unwrap();
    f(&mut store);
    store
}
