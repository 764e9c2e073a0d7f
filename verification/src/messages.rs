//! The protocol surface relevant to the session layer: typed message bodies,
//! frame headers and whole frames. Timestamps are kept as milliseconds since
//! the Unix epoch; prices and quantities of application messages are scaled
//! integers, so that every field is a plain value.

use vstd::prelude::*;

verus! {

/// The finite set of message kinds the session layer distinguishes.
#[derive(Clone, Copy, Debug, PartialEq, Eq, Structural)]
pub enum MsgKind {
    Logon,
    Logout,
    Heartbeat,
    TestRequest,
    ResendRequest,
    SequenceReset,
    NewOrderSingle,
}

/// Encryption negotiated at logon; the session layer itself never encrypts.
#[derive(Clone, Copy, Debug, PartialEq, Eq, Structural)]
pub enum EncryptMethod {
    Unencrypted,
}

/// Side of an order, for the application messages carried through the session.
#[derive(Clone, Copy, Debug, PartialEq, Eq, Structural)]
pub enum FieldSideEnum {
    Buy,
    Sell,
}

/// Order type of an application order message.
#[derive(Clone, Copy, Debug, PartialEq, Eq, Structural)]
pub enum FieldOrdTypeEnum {
    Market,
    Limit,
}

/// Typed message body: a tagged union over the session-level kinds plus the
/// application order message used by the surrounding client.
#[derive(Debug)]
#[allow(inconsistent_fields)]
pub enum FixMessage {
    Logon { encrypt_method: EncryptMethod, heart_bt_int: i32, reset_seq_num_flag: Option<bool> },
    Logout { text: Option<String> },
    Heartbeat { test_req_id: Option<String> },
    TestRequest { test_req_id: String },
    ResendRequest { begin_seq_no: i32, end_seq_no: i32 },
    SequenceReset { gap_fill_flag: Option<bool>, new_seq_no: i32 },
    NewOrderSingle {
        cl_ord_id: String,
        symbol: String,
        qty: i64,
        price_milli: i64,
        side: FieldSideEnum,
        ord_type: FieldOrdTypeEnum,
    },
}

impl FixMessage {
    /// The kind tag of this body.
    pub open spec fn spec_kind(&self) -> MsgKind {
        match self {
            FixMessage::Logon { .. } => MsgKind::Logon,
            FixMessage::Logout { .. } => MsgKind::Logout,
            FixMessage::Heartbeat { .. } => MsgKind::Heartbeat,
            FixMessage::TestRequest { .. } => MsgKind::TestRequest,
            FixMessage::ResendRequest { .. } => MsgKind::ResendRequest,
            FixMessage::SequenceReset { .. } => MsgKind::SequenceReset,
            FixMessage::NewOrderSingle { .. } => MsgKind::NewOrderSingle,
        }
    }

    #[verifier::when_used_as_spec(spec_kind)]
    pub fn msg_type(&self) -> (k: MsgKind)
        ensures
            k == self.spec_kind(),
    {
        match self {
            FixMessage::Logon { .. } => MsgKind::Logon,
            FixMessage::Logout { .. } => MsgKind::Logout,
            FixMessage::Heartbeat { .. } => MsgKind::Heartbeat,
            FixMessage::TestRequest { .. } => MsgKind::TestRequest,
            FixMessage::ResendRequest { .. } => MsgKind::ResendRequest,
            FixMessage::SequenceReset { .. } => MsgKind::SequenceReset,
            FixMessage::NewOrderSingle { .. } => MsgKind::NewOrderSingle,
        }
    }

    /// True of the bodies that carry only session bookkeeping: on replay such
    /// a run is collapsed into one gap fill instead of being sent again.
    pub open spec fn is_session_level(&self) -> bool {
        self.spec_kind() != MsgKind::NewOrderSingle
    }

    /// Executable mirror of [`Self::is_session_level`].
    pub fn check_session_level(&self) -> (r: bool)
        ensures
            r == self.is_session_level(),
    {
        match self {
            FixMessage::NewOrderSingle { .. } => false,
            _ => true,
        }
    }
}

impl Clone for FixMessage {
    fn clone(&self) -> (r: Self)
        ensures
            r == *self,
    {
        match self {
            FixMessage::Logon { encrypt_method, heart_bt_int, reset_seq_num_flag } => {
                FixMessage::Logon {
                    encrypt_method: *encrypt_method,
                    heart_bt_int: *heart_bt_int,
                    reset_seq_num_flag: *reset_seq_num_flag,
                }
            },
            FixMessage::Logout { text } => {
                FixMessage::Logout { text: clone_opt_string(text) }
            },
            FixMessage::Heartbeat { test_req_id } => {
                FixMessage::Heartbeat { test_req_id: clone_opt_string(test_req_id) }
            },
            FixMessage::TestRequest { test_req_id } => {
                FixMessage::TestRequest { test_req_id: test_req_id.clone() }
            },
            FixMessage::ResendRequest { begin_seq_no, end_seq_no } => {
                FixMessage::ResendRequest { begin_seq_no: *begin_seq_no, end_seq_no: *end_seq_no }
            },
            FixMessage::SequenceReset { gap_fill_flag, new_seq_no } => {
                FixMessage::SequenceReset { gap_fill_flag: *gap_fill_flag, new_seq_no: *new_seq_no }
            },
            FixMessage::NewOrderSingle { cl_ord_id, symbol, qty, price_milli, side, ord_type } => {
                FixMessage::NewOrderSingle {
                    cl_ord_id: cl_ord_id.clone(),
                    symbol: symbol.clone(),
                    qty: *qty,
                    price_milli: *price_milli,
                    side: *side,
                    ord_type: *ord_type,
                }
            },
        }
    }
}

/// Clones an optional string, keeping its value.
fn clone_opt_string(s: &Option<String>) -> (r: Option<String>)
    ensures
        r == *s,
{
    match s {
        Some(v) => Some(v.clone()),
        None => None,
    }
}

/// Header of one protocol frame.
#[derive(Debug)]
pub struct FixHeader {
    pub msg_seq_num: i32,
    pub msg_type: MsgKind,
    /// Milliseconds since the Unix epoch at which the frame was stamped.
    pub sending_time: i64,
    pub sender_comp_id: String,
    pub target_comp_id: String,
    pub begin_string: String,
    /// On a replay, the sending time of the original transmission.
    pub orig_sending_time: Option<i64>,
    /// On a replay, set to `Some(true)`.
    pub poss_dup_flag: Option<bool>,
}

impl Clone for FixHeader {
    fn clone(&self) -> (r: Self)
        ensures
            r == *self,
    {
        FixHeader {
            msg_seq_num: self.msg_seq_num,
            msg_type: self.msg_type,
            sending_time: self.sending_time,
            sender_comp_id: self.sender_comp_id.clone(),
            target_comp_id: self.target_comp_id.clone(),
            begin_string: self.begin_string.clone(),
            orig_sending_time: self.orig_sending_time,
            poss_dup_flag: self.poss_dup_flag,
        }
    }
}

/// One protocol message unit: header plus typed body. Immutable once built.
#[derive(Debug)]
pub struct FixFrame {
    pub header: FixHeader,
    pub message: FixMessage,
}

impl Clone for FixFrame {
    fn clone(&self) -> (r: Self)
        ensures
            r == *self,
    {
        FixFrame { header: self.header.clone(), message: self.message.clone() }
    }
}

impl FixFrame {
    /// The sequence number this frame carries.
    pub open spec fn seq(&self) -> int {
        self.header.msg_seq_num as int
    }

    /// True when the frame is marked as a possible duplicate (a replay).
    pub open spec fn is_poss_dup(&self) -> bool {
        self.header.poss_dup_flag == Some(true)
    }
}

} // verus!
