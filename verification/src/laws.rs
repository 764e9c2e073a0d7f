//! The session-level laws, each stated over the spec functions that the
//! executable functions are proved to follow, so every law holds of the
//! running code as well.

use vstd::prelude::*;
use crate::heartbeat::spec_due;
use crate::messages::{FixFrame, FixMessage};
use crate::resend::replay_entry;
use crate::config::FixSessionConfig;
use crate::session::{frame_built, replay_frame_built, timeout_commands_ok, Command};
use crate::syncstate::{
    spec_register_recv, spec_register_sent, SideState, TransitionAction,
};
use crate::valid_seq;

verus! {

/// Sending a logon enters the mutual handshake: whatever the sides were,
/// both become logon-pending, since the handshake milestone blocks mutual
/// progress until the counterpart's logon is seen.
pub proof fn lemma_logon_sent(us: SideState, them: SideState, sender_seq: int, f: FixFrame)
    requires
        f.message is Logon,
    ensures
        spec_register_sent(us, them, sender_seq, f) == (
            SideState::LogonPending,
            SideState::LogonPending,
        ),
{
}

/// A logon sent and then a logon received complete the handshake: both
/// sides become operational and the receive step owes no action.
pub proof fn lemma_logon_handshake(
    us: SideState,
    them: SideState,
    sender_seq: int,
    expected: int,
    sent_logon: FixFrame,
    recv_logon: FixFrame,
)
    requires
        sent_logon.message is Logon,
        recv_logon.message is Logon,
        recv_logon.seq() >= 1,
    ensures
        ({
            let handshake = spec_register_sent(us, them, sender_seq, sent_logon);
            let step = spec_register_recv(handshake.0, handshake.1, expected, recv_logon);
            &&& step.0 is Operational
            &&& step.1 is Operational
            &&& step.2 == recv_logon.seq() + 1
            &&& step.3 == TransitionAction::NoAction
        }),
{
}

/// A resend request arriving in sequence puts `us` under the requested
/// obligation and owes the replay, while `them` is untouched.
pub proof fn lemma_resend_request_received(
    us: SideState,
    them: SideState,
    expected: int,
    f: FixFrame,
)
    requires
        f.message matches FixMessage::ResendRequest { begin_seq_no, end_seq_no },
        f.seq() == expected,
    ensures
        ({
            let step = spec_register_recv(us, them, expected, f);
            f.message matches FixMessage::ResendRequest { begin_seq_no, end_seq_no } ==> {
                &&& step.0 == SideState::Resyncing { begin: begin_seq_no, end: end_seq_no }
                &&& step.1 == them
                &&& step.2 == expected + 1
                &&& step.3 == TransitionAction::DoResendRange((begin_seq_no, end_seq_no))
            }
        }),
{
}

/// A resend request that itself arrives past the expected number creates
/// obligations on both sides at once, and the combined action reports the
/// resend obligation before the request obligation.
pub proof fn lemma_resend_request_with_gap(
    us: SideState,
    them: SideState,
    expected: int,
    f: FixFrame,
)
    requires
        f.message matches FixMessage::ResendRequest { begin_seq_no, end_seq_no },
        f.seq() > expected,
        valid_seq(expected),
    ensures
        ({
            let step = spec_register_recv(us, them, expected, f);
            f.message matches FixMessage::ResendRequest { begin_seq_no, end_seq_no } ==> {
                &&& step.0 == SideState::Resyncing { begin: begin_seq_no, end: end_seq_no }
                &&& step.1 == SideState::Resyncing {
                    begin: expected as i32,
                    end: (f.seq() - 1) as i32,
                }
                &&& step.2 == expected
                &&& step.3 == TransitionAction::DoResendAndRequestRange(
                    (begin_seq_no, end_seq_no),
                    (expected as i32, (f.seq() - 1) as i32),
                )
            }
        }),
{
}

/// A gap fill stamped to cover through the end of the outstanding range
/// completes the whole obligation in one step.
pub proof fn lemma_gap_fill_completes(
    begin: i32,
    end: i32,
    them: SideState,
    sender_seq: int,
    f: FixFrame,
)
    requires
        f.message matches FixMessage::SequenceReset { gap_fill_flag: flag, new_seq_no } && flag
            == Some(true) && (end == 0 || new_seq_no > end),
    ensures
        spec_register_sent(SideState::Resyncing { begin, end }, them, sender_seq, f) == (
            SideState::Operational,
            them,
        ),
{
}

/// Replaying messages one by one only discharges the obligation when the
/// end of the range is reached: an application message below the end
/// leaves `us` resyncing, one at the end restores it to operational.
pub proof fn lemma_individual_resend(
    begin: i32,
    end: i32,
    them: SideState,
    sender_seq: int,
    f: FixFrame,
)
    requires
        end != 0,
        f.message is NewOrderSingle,
    ensures
        f.seq() < end ==> spec_register_sent(
            SideState::Resyncing { begin, end },
            them,
            sender_seq,
            f,
        ) == (SideState::Resyncing { begin, end }, them),
        f.seq() == end ==> spec_register_sent(
            SideState::Resyncing { begin, end },
            them,
            sender_seq,
            f,
        ) == (SideState::Operational, them),
{
}

/// Replay round trip: for an originally sent frame with sequence `S` and
/// sending time `T`, the rebuilt replay frame carries sequence `S`, the
/// original sending time `T`, the possible-duplicate flag, the same body
/// and the same identity fields; only its own sending time is stamped
/// afresh.
pub proof fn lemma_replay_round_trip(
    original: FixFrame,
    replay: FixFrame,
    cfg: FixSessionConfig,
    message: FixMessage,
    seq: int,
    orig_time: i64,
    now: i64,
)
    requires
        frame_built(original, cfg, message, seq, orig_time),
        replay_frame_built(replay, cfg, replay_entry(original), now),
    ensures
        replay.header.msg_seq_num == original.header.msg_seq_num,
        replay.header.orig_sending_time == Some(original.header.sending_time),
        replay.header.poss_dup_flag == Some(true),
        replay.message == original.message,
        replay.header.msg_type == original.header.msg_type,
        replay.header.sender_comp_id@ == original.header.sender_comp_id@,
        replay.header.target_comp_id@ == original.header.target_comp_id@,
        replay.header.begin_string@ == original.header.begin_string@,
        replay.header.sending_time == now,
{
}

/// Heartbeat idempotence: while both liveness timestamps stay within three
/// quarters of the interval, a timer firing owes exactly one command — the
/// rearm — and no traffic; once a direction exceeds the threshold, exactly
/// one message per quiet direction goes out, and the rearm is owed whatever
/// the operational state. Since handling a firing leaves the session
/// unchanged, the same holds of every repeated firing while the timestamps
/// stand.
pub proof fn lemma_heartbeat_idempotence(
    cmds: Seq<Command>,
    operational: bool,
    last_sent: Option<i64>,
    last_recv: Option<i64>,
    now: i64,
    interval: int,
    period: int,
)
    requires
        timeout_commands_ok(
            cmds,
            operational && spec_due(now, last_sent, interval),
            operational && spec_due(now, last_recv, interval),
            period,
        ),
    ensures
        cmds.last() matches Command::ScheduleHeartbeat(p) && p as int == period,
        !spec_due(now, last_sent, interval) && !spec_due(now, last_recv, interval) ==> cmds.len()
            == 1,
        operational && spec_due(now, last_sent, interval) && spec_due(now, last_recv, interval)
            ==> cmds.len() == 3,
        !operational ==> cmds.len() == 1,
{
}

/// End-to-end gap repair with a single missing frame: an application
/// message one past the expectation reports the gap and asks for exactly
/// the missing range; the later arrival of the missing frame restores
/// `them` to operational and advances the expectation past it.
pub proof fn lemma_gap_detect_and_repair(
    us: SideState,
    expected: int,
    gap_frame: FixFrame,
    missing_frame: FixFrame,
)
    requires
        valid_seq(expected),
        gap_frame.message is NewOrderSingle,
        gap_frame.seq() == expected + 1,
        missing_frame.message is NewOrderSingle,
        missing_frame.seq() == expected,
    ensures
        ({
            let step = spec_register_recv(us, SideState::Operational, expected, gap_frame);
            &&& step.1 == SideState::Resyncing { begin: expected as i32, end: expected as i32 }
            &&& step.2 == expected
            &&& step.3 == TransitionAction::RequestResendRange((expected as i32, expected as i32))
            &&& ({
                let repair = spec_register_recv(step.0, step.1, step.2, missing_frame);
                &&& repair.1 is Operational
                &&& repair.2 == expected + 1
                &&& repair.3 == TransitionAction::NoAction
            })
        }),
{
}


/// A resend obligation, once entered, is only exited through completion:
/// any outbound frame other than a logon either leaves the range as it
/// stands or restores `us` to operational, and the latter only by reaching
/// the range's end — a covering gap fill, the message carrying the final
/// number, or, for an open-ended range, the most recent allocated number.
pub proof fn lemma_resync_exit_only_by_completion(
    begin: i32,
    end: i32,
    them: SideState,
    sender_seq: int,
    f: FixFrame,
)
    requires
        !(f.message is Logon),
    ensures
        ({
            let post = spec_register_sent(
                SideState::Resyncing { begin, end },
                them,
                sender_seq,
                f,
            );
            &&& post.1 == them
            &&& post.0 == SideState::Resyncing { begin, end } || post.0 is Operational
            &&& post.0 is Operational ==> match f.message {
                FixMessage::SequenceReset { gap_fill_flag, new_seq_no } => gap_fill_flag == Some(
                    true,
                ) && (end == 0 || new_seq_no > end),
                _ => (end != 0 && f.seq() >= end) || (end == 0 && f.seq() == sender_seq - 1),
            }
        }),
{
}

} // verus!
