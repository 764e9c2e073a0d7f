//! Resend coordinator: turns a requested sequence range into concrete
//! replay entries by querying the store's record of sent frames. Application
//! messages are replayed one by one; contiguous runs of session-level
//! messages collapse into a single gap-fill sequence reset. The whole plan
//! is stated by [`replay_plan`], and the executable builder is proved to
//! produce exactly that plan.

use vstd::prelude::*;
use crate::messages::{FixFrame, FixMessage};
use crate::store::MemoryMessageStore;
use crate::SessionError;

verus! {

/// One message that must go out again: its original sequence number, its
/// original body, and the sending time of the original transmission.
pub struct MessageToReSend {
    pub seq: i32,
    pub message: FixMessage,
    pub orig_sending_time: i64,
}

impl Clone for MessageToReSend {
    fn clone(&self) -> (r: Self)
        ensures
            r == *self,
    {
        MessageToReSend {
            seq: self.seq,
            message: self.message.clone(),
            orig_sending_time: self.orig_sending_time,
        }
    }
}

/// Index of the first frame at or after position `i` that carries sequence
/// number `s`; `log.len()` when there is none.
pub open spec fn first_from(log: Seq<FixFrame>, s: int, i: int) -> int
    decreases log.len() - i
        when 0 <= i <= log.len()
{
    if i >= log.len() {
        log.len() as int
    } else if log[i].seq() == s {
        i
    } else {
        first_from(log, s, i + 1)
    }
}

/// The record holds some frame with sequence number `s`.
pub open spec fn has_sent(log: Seq<FixFrame>, s: int) -> bool {
    first_from(log, s, 0) < log.len()
}

/// The first recorded frame with sequence number `s`.
pub open spec fn sent_frame(log: Seq<FixFrame>, s: int) -> FixFrame {
    log[first_from(log, s, 0)]
}

/// The record is contiguous over `[lo, hi]`: every number of the range was
/// sent at some point.
pub open spec fn has_range(log: Seq<FixFrame>, lo: int, hi: int) -> bool {
    forall|s: int| lo <= s <= hi ==> has_sent(log, s)
}

/// Last sequence number `j` in `[lo, hi]` such that every frame of
/// `[lo, j]` is session-level; `lo` itself is assumed session-level.
pub open spec fn admin_run_end(log: Seq<FixFrame>, lo: int, hi: int) -> int
    decreases hi - lo
        when lo <= hi
{
    if lo >= hi {
        hi
    } else if !sent_frame(log, lo + 1).message.is_session_level() {
        lo
    } else {
        admin_run_end(log, lo + 1, hi)
    }
}

/// The run end lies inside `[lo, hi]`.
pub proof fn lemma_admin_run_end_bounds(log: Seq<FixFrame>, lo: int, hi: int)
    requires
        lo <= hi,
    ensures
        lo <= admin_run_end(log, lo, hi) <= hi,
    decreases hi - lo,
{
    if lo < hi && sent_frame(log, lo + 1).message.is_session_level() {
        lemma_admin_run_end_bounds(log, lo + 1, hi);
    }
}

/// The replay entry for one application frame: same sequence number, same
/// body, original sending time preserved.
pub open spec fn replay_entry(f: FixFrame) -> MessageToReSend {
    MessageToReSend {
        seq: f.header.msg_seq_num,
        message: f.message,
        orig_sending_time: f.header.sending_time,
    }
}

/// The single gap-fill entry that stands for the session-level run
/// `[lo, j]`: a sequence reset advancing the counterpart's expectation to
/// `j + 1`.
pub open spec fn gap_fill_entry(log: Seq<FixFrame>, lo: int, j: int) -> MessageToReSend {
    MessageToReSend {
        seq: lo as i32,
        message: FixMessage::SequenceReset { gap_fill_flag: Some(true), new_seq_no: (j + 1) as i32 },
        orig_sending_time: sent_frame(log, lo).header.sending_time,
    }
}

/// The ordered replay plan for the range `[lo, hi]` of the sent record.
pub open spec fn replay_plan(log: Seq<FixFrame>, lo: int, hi: int) -> Seq<MessageToReSend>
    decreases hi + 1 - lo
        when lo > hi || has_range(log, lo, hi)
        via replay_plan_decreases
{
    if lo > hi {
        Seq::empty()
    } else if !sent_frame(log, lo).message.is_session_level() {
        seq![replay_entry(sent_frame(log, lo))] + replay_plan(log, lo + 1, hi)
    } else {
        let j = admin_run_end(log, lo, hi);
        seq![gap_fill_entry(log, lo, j)] + replay_plan(log, j + 1, hi)
    }
}

#[via_fn]
proof fn replay_plan_decreases(log: Seq<FixFrame>, lo: int, hi: int) {
    if lo <= hi && sent_frame(log, lo).message.is_session_level() {
        lemma_admin_run_end_bounds(log, lo, hi);
    }
}

/// Finds the first frame carrying sequence number `s`, which must exist.
fn find_first(log: &Vec<FixFrame>, s: i32) -> (i: usize)
    requires
        has_sent(log@, s as int),
    ensures
        i as int == first_from(log@, s as int, 0),
        i < log.len(),
        log@[i as int].seq() == s as int,
{
    let mut i: usize = 0;
    while i < log.len()
        invariant
            0 <= i <= log.len(),
            first_from(log@, s as int, 0) == first_from(log@, s as int, i as int),
            has_sent(log@, s as int),
        decreases log.len() - i,
    {
        if log[i].header.msg_seq_num == s {
            return i;
        }
        i = i + 1;
    }
    proof {
        assert(false);
    }
    0
}

/// Whether the record holds any frame with sequence number `s`.
fn contains_seq(log: &Vec<FixFrame>, s: i32) -> (r: bool)
    ensures
        r == has_sent(log@, s as int),
{
    let mut i: usize = 0;
    while i < log.len()
        invariant
            0 <= i <= log.len(),
            first_from(log@, s as int, 0) == first_from(log@, s as int, i as int),
        decreases log.len() - i,
    {
        if log[i].header.msg_seq_num == s {
            return true;
        }
        i = i + 1;
    }
    false
}

/// The smallest sequence number of `[lo, hi]` that the record lacks, if any.
fn missing_in_range(log: &Vec<FixFrame>, lo: i32, hi: i32) -> (r: Option<i32>)
    requires
        hi < i32::MAX,
    ensures
        r is None <==> has_range(log@, lo as int, hi as int),
        r matches Some(m) ==> lo <= m <= hi && !has_sent(log@, m as int),
{
    let mut s: i32 = lo;
    while s <= hi
        invariant
            lo <= s,
            s <= hi + 1 || s == lo,
            hi < i32::MAX,
            forall|t: int| lo <= t < s ==> has_sent(log@, t),
        decreases hi + 1 - s,
    {
        if !contains_seq(log, s) {
            return Some(s);
        }
        s = s + 1;
    }
    None
}

/// Builds the replay plan for `[lo, hi]`; the record must be contiguous
/// over the range.
fn build_plan(log: &Vec<FixFrame>, lo: i32, hi: i32) -> (r: Vec<MessageToReSend>)
    requires
        hi < i32::MAX,
        lo > hi || has_range(log@, lo as int, hi as int),
    ensures
        r@ == replay_plan(log@, lo as int, hi as int),
    decreases hi as int + 1 - lo as int,
{
    let mut out: Vec<MessageToReSend> = Vec::new();
    if lo > hi {
        assert(out@ =~= replay_plan(log@, lo as int, hi as int));
        return out;
    }
    let i0 = find_first(log, lo);
    if !log[i0].message.check_session_level() {
        let head = MessageToReSend {
            seq: log[i0].header.msg_seq_num,
            message: log[i0].message.clone(),
            orig_sending_time: log[i0].header.sending_time,
        };
        let mut rest = build_plan(log, lo + 1, hi);
        out.push(head);
        out.append(&mut rest);
        assert(out@ =~= replay_plan(log@, lo as int, hi as int));
    } else {
        let j = admin_run_end_exec(log, lo, hi);
        proof {
            lemma_admin_run_end_bounds(log@, lo as int, hi as int);
        }
        let head = MessageToReSend {
            seq: lo,
            message: FixMessage::SequenceReset { gap_fill_flag: Some(true), new_seq_no: j + 1 },
            orig_sending_time: log[i0].header.sending_time,
        };
        let mut rest = build_plan(log, j + 1, hi);
        out.push(head);
        out.append(&mut rest);
        assert(out@ =~= replay_plan(log@, lo as int, hi as int));
    }
    out
}

/// Walks to the end of the session-level run that starts at `lo`.
fn admin_run_end_exec(log: &Vec<FixFrame>, lo: i32, hi: i32) -> (j: i32)
    requires
        lo <= hi,
        hi < i32::MAX,
        has_range(log@, lo as int, hi as int),
    ensures
        j as int == admin_run_end(log@, lo as int, hi as int),
        lo <= j <= hi,
    decreases hi as int - lo as int,
{
    proof {
        lemma_admin_run_end_bounds(log@, lo as int, hi as int);
    }
    if lo >= hi {
        return hi;
    }
    let i1 = find_first(log, lo + 1);
    if !log[i1].message.check_session_level() {
        lo
    } else {
        admin_run_end_exec(log, lo + 1, hi)
    }
}

/// The effective upper bound of a requested range: `end == 0` stands for
/// "through the most recent sent", i.e. the last allocated number.
pub open spec fn spec_resend_hi(store: MemoryMessageStore, end: i32) -> int {
    if end == 0 {
        store.sender_seq - 1
    } else {
        end as int
    }
}

/// Queries the store for all frames sent with sequence number in
/// `[start, end]` (`end == 0`: through the latest) and returns the ordered
/// replay plan. Fails — reporting the first missing number — exactly when
/// the record is not contiguous over the range, which signals data loss.
pub fn build_resend_request_response(store: &MemoryMessageStore, start: i32, end: i32) -> (r:
    Result<Vec<MessageToReSend>, SessionError>)
    requires
        store.wf(),
        0 <= end < i32::MAX,
    ensures
        r is Ok <==> (start as int > spec_resend_hi(*store, end) || has_range(
            store.sent_log@,
            start as int,
            spec_resend_hi(*store, end),
        )),
        r matches Ok(v) ==> v@ == replay_plan(
            store.sent_log@,
            start as int,
            spec_resend_hi(*store, end),
        ),
        r matches Err(e) ==> ({
            &&& e matches SessionError::ResendDataLoss { missing_seq }
            &&& start as int <= missing_seq as int <= spec_resend_hi(*store, end)
            &&& !has_sent(store.sent_log@, missing_seq as int)
        }),
{
    let hi = if end == 0 {
        store.sender_seq - 1
    } else {
        end
    };
    if start > hi {
        let empty: Vec<MessageToReSend> = Vec::new();
        assert(empty@ =~= replay_plan(store.sent_log@, start as int, hi as int));
        return Ok(empty);
    }
    match missing_in_range(&store.sent_log, start, hi) {
        Some(m) => Err(SessionError::ResendDataLoss { missing_seq: m }),
        None => Ok(build_plan(&store.sent_log, start, hi)),
    }
}

} // verus!
