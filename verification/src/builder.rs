//! Small frame builders used by tests and bootstrap code: each returns a
//! bare frame with the given sequence number and a fully pinned body.

use vstd::prelude::*;
use crate::messages::{
    EncryptMethod, FieldOrdTypeEnum, FieldSideEnum, FixFrame, FixHeader, FixMessage, MsgKind,
};

verus! {

/// Heartbeat interval written into logon frames built without a
/// configuration at hand.
pub const DEFAULT_HEART_BT_INT: i32 = 30;

fn bare_header(seq: i32, kind: MsgKind, poss_dup: Option<bool>) -> (h: FixHeader)
    ensures
        h.msg_seq_num == seq,
        h.msg_type == kind,
        h.sending_time == 0,
        h.sender_comp_id@ =~= Seq::<char>::empty(),
        h.target_comp_id@ =~= Seq::<char>::empty(),
        h.begin_string@ =~= Seq::<char>::empty(),
        h.orig_sending_time is None,
        h.poss_dup_flag == poss_dup,
{
    FixHeader {
        msg_seq_num: seq,
        msg_type: kind,
        sending_time: 0,
        sender_comp_id: String::new(),
        target_comp_id: String::new(),
        begin_string: String::new(),
        orig_sending_time: None,
        poss_dup_flag: poss_dup,
    }
}

/// A logon frame carrying the default heartbeat interval.
pub fn build_logon(seq: i32, reset_seq_num_flag: Option<bool>) -> (r: FixFrame)
    ensures
        r.header.msg_seq_num == seq,
        r.header.msg_type == MsgKind::Logon,
        r.header.poss_dup_flag is None,
        r.message == (FixMessage::Logon {
            encrypt_method: EncryptMethod::Unencrypted,
            heart_bt_int: DEFAULT_HEART_BT_INT,
            reset_seq_num_flag,
        }),
{
    FixFrame {
        header: bare_header(seq, MsgKind::Logon, None),
        message: FixMessage::Logon {
            encrypt_method: EncryptMethod::Unencrypted,
            heart_bt_int: DEFAULT_HEART_BT_INT,
            reset_seq_num_flag,
        },
    }
}

/// A resend request for the inclusive range `[begin, end]`.
pub fn build_resend_req(seq: i32, begin: i32, end: i32) -> (r: FixFrame)
    ensures
        r.header.msg_seq_num == seq,
        r.header.msg_type == MsgKind::ResendRequest,
        r.header.poss_dup_flag is None,
        r.message == (FixMessage::ResendRequest { begin_seq_no: begin, end_seq_no: end }),
{
    FixFrame {
        header: bare_header(seq, MsgKind::ResendRequest, None),
        message: FixMessage::ResendRequest { begin_seq_no: begin, end_seq_no: end },
    }
}

/// A sequence reset advancing the expectation to `new_seq_no`; `gap_fill`
/// marks it as a gap fill.
pub fn build_sequence_reset(seq: i32, new_seq_no: i32, gap_fill: Option<bool>) -> (r: FixFrame)
    ensures
        r.header.msg_seq_num == seq,
        r.header.msg_type == MsgKind::SequenceReset,
        r.header.poss_dup_flag is None,
        r.message == (FixMessage::SequenceReset { gap_fill_flag: gap_fill, new_seq_no }),
{
    FixFrame {
        header: bare_header(seq, MsgKind::SequenceReset, None),
        message: FixMessage::SequenceReset { gap_fill_flag: gap_fill, new_seq_no },
    }
}

/// An application order message; quantity and price are scaled integers
/// (price in thousandths).
pub fn build_new_order_single(
    seq: i32,
    poss_dup: bool,
    cl_ord_id: &str,
    symbol: &str,
    qty: i64,
    price_milli: i64,
    side: FieldSideEnum,
    ord_type: FieldOrdTypeEnum,
) -> (r: FixFrame)
    ensures
        r.header.msg_seq_num == seq,
        r.header.msg_type == MsgKind::NewOrderSingle,
        r.header.poss_dup_flag == (if poss_dup {
            Some(true)
        } else {
            None::<bool>
        }),
        r.message matches FixMessage::NewOrderSingle {
            cl_ord_id: c,
            symbol: s,
            qty: q,
            price_milli: p,
            side: sd,
            ord_type: ot,
        } && c@ == cl_ord_id@ && s@ == symbol@ && q == qty && p == price_milli && sd == side
            && ot == ord_type,
{
    let flag: Option<bool> = if poss_dup {
        Some(true)
    } else {
        None
    };
    FixFrame {
        header: bare_header(seq, MsgKind::NewOrderSingle, flag),
        message: FixMessage::NewOrderSingle {
            cl_ord_id: cl_ord_id.to_owned(),
            symbol: symbol.to_owned(),
            qty,
            price_milli,
            side,
            ord_type,
        },
    }
}

} // verus!
