//! Bidirectional sequence-synchronization state machine. `us` tracks our
//! outbound resend obligations toward the counterparty; `them` tracks our
//! expectations of inbound traffic. The whole transition relation is stated
//! as spec functions, and `register_sent` / `register_recv` are proved to
//! follow it step for step.

use vstd::prelude::*;
use vstd::string::StringExecFns;
use crate::messages::{FixFrame, FixMessage};
use crate::store::MemoryMessageStore;
use crate::SessionError;

verus! {

/// State of one side of the session. A `Resyncing` range is the inclusive
/// `[begin, end]` span of sequence numbers still owed; `end == 0` stands for
/// "through the most recent".
#[derive(Clone, Copy, Debug, PartialEq, Eq, Structural)]
pub enum SideState {
    Connected,
    LogonPending,
    Operational,
    Resyncing { begin: i32, end: i32 },
}

/// Why the state machine asks for a logout.
#[derive(Clone, Copy, Debug, PartialEq, Eq, Structural)]
pub enum LogoutReason {
    /// A logon arrived outside the mutual handshake.
    UnexpectedLogon,
    /// A sequence number lower than expected arrived without a
    /// possible-duplicate mark, or a sequence reset tried to move backwards.
    SequenceTooLow,
}

impl LogoutReason {
    /// The human-readable text carried by the logout frame.
    pub open spec fn spec_text(self) -> Seq<char> {
        match self {
            LogoutReason::UnexpectedLogon => "logon received out of order"@,
            LogoutReason::SequenceTooLow => "sequence number lower than expected"@,
        }
    }

    /// Executable mirror of [`Self::spec_text`].
    pub fn text(self) -> (r: &'static str)
        ensures
            r@ == self.spec_text(),
    {
        match self {
            LogoutReason::UnexpectedLogon => "logon received out of order",
            LogoutReason::SequenceTooLow => "sequence number lower than expected",
        }
    }
}

/// Result of a transition. Ranges are inclusive `(begin, end)` pairs. When
/// one inbound frame creates both an obligation to resend and a gap of our
/// own, the resend obligation comes first in the combined variant, and the
/// caller must execute it first.
#[derive(Clone, Copy, Debug)]
pub enum TransitionAction {
    NoAction,
    /// Issue a resend request to the counterparty for this range.
    RequestResendRange((i32, i32)),
    /// Replay our own sent messages in this range.
    DoResendRange((i32, i32)),
    /// First replay our `(send_range)`, then request the `(request_range)`.
    DoResendAndRequestRange((i32, i32), (i32, i32)),
    /// Send a logout carrying the reason, then disconnect.
    LogoutWith(LogoutReason),
}

/// What a sent frame does to the two sides. `sender_seq` is the store's next
/// outbound sequence number, needed to close an `end == 0` obligation: the
/// most recent allocated number is `sender_seq - 1`.
pub open spec fn spec_register_sent(
    us: SideState,
    them: SideState,
    sender_seq: int,
    f: FixFrame,
) -> (SideState, SideState) {
    match f.message {
        FixMessage::Logon { .. } => (SideState::LogonPending, SideState::LogonPending),
        FixMessage::SequenceReset { gap_fill_flag, new_seq_no } => {
            match us {
                SideState::Resyncing { begin, end } => {
                    if gap_fill_flag == Some(true) && (end == 0 || new_seq_no > end) {
                        (SideState::Operational, them)
                    } else {
                        (us, them)
                    }
                },
                _ => (us, them),
            }
        },
        _ => {
            match us {
                SideState::Resyncing { begin, end } => {
                    if (end != 0 && f.seq() >= end) || (end == 0 && f.seq() == sender_seq - 1) {
                        (SideState::Operational, them)
                    } else {
                        (us, them)
                    }
                },
                _ => (us, them),
            }
        },
    }
}

/// What an inbound frame does: the new `(us, them)` pair, the new
/// expected-inbound counter, and the action owed to the caller. `expected`
/// is the store's expected-inbound counter before the frame.
pub open spec fn spec_register_recv(
    us: SideState,
    them: SideState,
    expected: int,
    f: FixFrame,
) -> (SideState, SideState, int, TransitionAction) {
    let observed = f.seq();
    match f.message {
        FixMessage::Logon { .. } => {
            if us is LogonPending && them is LogonPending {
                if observed >= 1 {
                    (SideState::Operational, SideState::Operational, observed + 1,
                     TransitionAction::NoAction)
                } else {
                    (us, them, expected, TransitionAction::LogoutWith(LogoutReason::SequenceTooLow))
                }
            } else {
                (us, them, expected, TransitionAction::LogoutWith(LogoutReason::UnexpectedLogon))
            }
        },
        FixMessage::SequenceReset { gap_fill_flag, new_seq_no } => {
            if new_seq_no >= expected {
                (us, spec_gap_resolution(them, new_seq_no - 1), new_seq_no as int,
                 TransitionAction::NoAction)
            } else {
                (us, them, expected, TransitionAction::LogoutWith(LogoutReason::SequenceTooLow))
            }
        },
        FixMessage::ResendRequest { begin_seq_no, end_seq_no } => {
            if observed > expected {
                (SideState::Resyncing { begin: begin_seq_no, end: end_seq_no },
                 SideState::Resyncing { begin: expected as i32, end: (observed - 1) as i32 },
                 expected,
                 TransitionAction::DoResendAndRequestRange(
                     (begin_seq_no, end_seq_no),
                     (expected as i32, (observed - 1) as i32),
                 ))
            } else if observed == expected {
                (SideState::Resyncing { begin: begin_seq_no, end: end_seq_no },
                 them,
                 expected + 1,
                 TransitionAction::DoResendRange((begin_seq_no, end_seq_no)))
            } else if f.is_poss_dup() {
                (us, them, expected, TransitionAction::NoAction)
            } else {
                (us, them, expected, TransitionAction::LogoutWith(LogoutReason::SequenceTooLow))
            }
        },
        _ => {
            if observed == expected {
                (us, spec_gap_resolution(them, observed), observed + 1, TransitionAction::NoAction)
            } else if observed > expected {
                (us,
                 SideState::Resyncing { begin: expected as i32, end: (observed - 1) as i32 },
                 expected,
                 TransitionAction::RequestResendRange((expected as i32, (observed - 1) as i32)))
            } else if f.is_poss_dup() {
                (us, them, expected, TransitionAction::NoAction)
            } else {
                (us, them, expected, TransitionAction::LogoutWith(LogoutReason::SequenceTooLow))
            }
        },
    }
}

/// A `them` obligation is resolved once inbound traffic has reached
/// `through`: a `Resyncing` range whose end is covered returns to
/// `Operational`; every other state is kept.
pub open spec fn spec_gap_resolution(them: SideState, through: int) -> SideState {
    match them {
        SideState::Resyncing { begin, end } => {
            if through >= end {
                SideState::Operational
            } else {
                them
            }
        },
        _ => them,
    }
}

/// The two sides plus the store the session works against. Created once per
/// session; mutated exclusively by `register_sent` / `register_recv`.
pub struct FixSyncState {
    pub us: SideState,
    pub them: SideState,
    pub store: MemoryMessageStore,
}

impl FixSyncState {
    pub open spec fn wf(&self) -> bool {
        self.store.wf()
    }

    /// Both sides operational: the precondition for delivering application
    /// traffic without suspicion.
    pub open spec fn spec_both_operational(&self) -> bool {
        self.us is Operational && self.them is Operational
    }

    /// A fresh session starts with both sides merely connected.
    pub fn new(store: MemoryMessageStore) -> (r: FixSyncState)
        requires
            store.wf(),
        ensures
            r.us == SideState::Connected,
            r.them == SideState::Connected,
            r.store == store,
            r.wf(),
    {
        FixSyncState { us: SideState::Connected, them: SideState::Connected, store }
    }

    pub fn are_both_operational(&self) -> (r: bool)
        ensures
            r == self.spec_both_operational(),
    {
        match (&self.us, &self.them) {
            (SideState::Operational, SideState::Operational) => true,
            _ => false,
        }
    }

    /// Records the effect of an outbound frame on `us`; the store is left
    /// untouched. Never fails, and the action is always `None`.
    pub fn register_sent(&mut self, frame: &FixFrame) -> (r: Result<
        TransitionAction,
        SessionError,
    >)
        requires
            old(self).wf(),
        ensures
            r == Ok::<TransitionAction, SessionError>(TransitionAction::NoAction),
            (final(self).us, final(self).them) == spec_register_sent(
                old(self).us,
                old(self).them,
                old(self).store.sender_seq as int,
                *frame,
            ),
            final(self).store == old(self).store,
            final(self).wf(),
    {
        match &frame.message {
            FixMessage::Logon { .. } => {
                self.us = SideState::LogonPending;
                self.them = SideState::LogonPending;
            },
            FixMessage::SequenceReset { gap_fill_flag, new_seq_no } => {
                if let SideState::Resyncing { begin: _, end } = self.us {
                    let covered = end == 0 || *new_seq_no > end;
                    if matches!(*gap_fill_flag, Some(true)) && covered {
                        self.us = SideState::Operational;
                    }
                }
            },
            _ => {
                if let SideState::Resyncing { begin: _, end } = self.us {
                    let seq = frame.header.msg_seq_num;
                    let latest = self.store.sender_seq - 1;
                    if (end != 0 && seq >= end) || (end == 0 && seq == latest) {
                        self.us = SideState::Operational;
                    }
                }
            },
        }
        Ok(TransitionAction::NoAction)
    }

    /// Records the effect of an inbound frame on `them` (and, for a logon,
    /// on `us`), advancing the store's expected-inbound counter as the
    /// transition relation says. Never fails; protocol violations surface as
    /// a `LogoutWith` action.
    pub fn register_recv(&mut self, frame: &FixFrame) -> (r: Result<
        TransitionAction,
        SessionError,
    >)
        requires
            old(self).wf(),
            frame.seq() < i32::MAX,
        ensures
            ({
                let step = spec_register_recv(
                    old(self).us,
                    old(self).them,
                    old(self).store.target_seq as int,
                    *frame,
                );
                &&& final(self).us == step.0
                &&& final(self).them == step.1
                &&& final(self).store.target_seq as int == step.2
                &&& r == Ok::<TransitionAction, SessionError>(step.3)
            }),
            final(self).store.sender_seq == old(self).store.sender_seq,
            final(self).store.sent_log@ == old(self).store.sent_log@,
            final(self).store.recv_log@ == old(self).store.recv_log@,
            final(self).wf(),
    {
        let observed = frame.header.msg_seq_num;
        let expected = self.store.target_seq;
        match &frame.message {
            FixMessage::Logon { .. } => {
                let both_pending = matches!(self.us, SideState::LogonPending) && matches!(
                    self.them,
                    SideState::LogonPending,
                );
                if both_pending {
                    if observed >= 1 {
                        self.us = SideState::Operational;
                        self.them = SideState::Operational;
                        self.store.set_expected_incoming(observed + 1);
                        Ok(TransitionAction::NoAction)
                    } else {
                        Ok(TransitionAction::LogoutWith(LogoutReason::SequenceTooLow))
                    }
                } else {
                    Ok(TransitionAction::LogoutWith(LogoutReason::UnexpectedLogon))
                }
            },
            FixMessage::SequenceReset { gap_fill_flag, new_seq_no } => {
                let new_seq_no = *new_seq_no;
                if new_seq_no >= expected {
                    self.them = gap_resolution(self.them, new_seq_no - 1);
                    self.store.set_expected_incoming(new_seq_no);
                    Ok(TransitionAction::NoAction)
                } else {
                    Ok(TransitionAction::LogoutWith(LogoutReason::SequenceTooLow))
                }
            },
            FixMessage::ResendRequest { begin_seq_no, end_seq_no } => {
                let send_range = (*begin_seq_no, *end_seq_no);
                if observed > expected {
                    let req_range = (expected, observed - 1);
                    self.us = SideState::Resyncing { begin: send_range.0, end: send_range.1 };
                    self.them = SideState::Resyncing { begin: req_range.0, end: req_range.1 };
                    Ok(TransitionAction::DoResendAndRequestRange(send_range, req_range))
                } else if observed == expected {
                    self.us = SideState::Resyncing { begin: send_range.0, end: send_range.1 };
                    self.store.set_expected_incoming(expected + 1);
                    Ok(TransitionAction::DoResendRange(send_range))
                } else if is_poss_dup(frame) {
                    Ok(TransitionAction::NoAction)
                } else {
                    Ok(TransitionAction::LogoutWith(LogoutReason::SequenceTooLow))
                }
            },
            _ => {
                if observed == expected {
                    self.them = gap_resolution(self.them, observed);
                    self.store.set_expected_incoming(observed + 1);
                    Ok(TransitionAction::NoAction)
                } else if observed > expected {
                    let req_range = (expected, observed - 1);
                    self.them = SideState::Resyncing { begin: req_range.0, end: req_range.1 };
                    Ok(TransitionAction::RequestResendRange(req_range))
                } else if is_poss_dup(frame) {
                    Ok(TransitionAction::NoAction)
                } else {
                    Ok(TransitionAction::LogoutWith(LogoutReason::SequenceTooLow))
                }
            },
        }
    }

    /// Human-readable rendering of `(us, them)` for diagnostics and tests.
    pub fn describe(&self) -> (r: String)
        ensures
            r@ == spec_describe(self.us, self.them),
    {
        let mut out = "us ".to_owned();
        out.append(side_label(&self.us));
        out.append(" - them ");
        out.append(side_label(&self.them));
        out
    }
}

/// The rendering produced by [`FixSyncState::describe`].
pub open spec fn spec_describe(us: SideState, them: SideState) -> Seq<char> {
    "us "@ + spec_side_label(us) + " - them "@ + spec_side_label(them)
}

/// The short diagnostic label of one side's state.
pub open spec fn spec_side_label(s: SideState) -> Seq<char> {
    match s {
        SideState::Connected => "connected"@,
        SideState::LogonPending => "logon"@,
        SideState::Operational => "operational"@,
        SideState::Resyncing { .. } => "resync"@,
    }
}

/// Executable mirror of [`spec_side_label`].
pub fn side_label(s: &SideState) -> (r: &'static str)
    ensures
        r@ == spec_side_label(*s),
{
    match s {
        SideState::Connected => "connected",
        SideState::LogonPending => "logon",
        SideState::Operational => "operational",
        SideState::Resyncing { .. } => "resync",
    }
}

/// Executable mirror of [`spec_gap_resolution`].
fn gap_resolution(them: SideState, through: i32) -> (r: SideState)
    ensures
        r == spec_gap_resolution(them, through as int),
{
    match them {
        SideState::Resyncing { begin, end } => {
            if through >= end {
                SideState::Operational
            } else {
                them
            }
        },
        _ => them,
    }
}

/// Executable mirror of [`FixFrame::is_poss_dup`].
fn is_poss_dup(frame: &FixFrame) -> (r: bool)
    ensures
        r == frame.is_poss_dup(),
{
    matches!(frame.header.poss_dup_flag, Some(true))
}

} // verus!
