//! Session orchestrator. It composes the state machine, the resend
//! coordinator and the heartbeat supervisor, and exposes the public session
//! contract. All outbound work is returned as [`Command`] values: the
//! transport collaborator executes them in order, and reports frames it
//! sent back through [`SessionStateImpl::sent`].

use vstd::prelude::*;
use vstd::string::StringExecFns;
use crate::config::FixSessionConfig;
use crate::heartbeat::{
    plan_on_timeout, spec_due, spec_timer_period_ms, timer_period_ms, HeartbeatPlan,
};
use crate::messages::{EncryptMethod, FixFrame, FixHeader, FixMessage};
use crate::resend::{
    build_resend_request_response, has_range, has_sent, replay_plan, spec_resend_hi,
    MessageToReSend,
};
use crate::store::MemoryMessageStore;
use crate::syncstate::{
    spec_register_recv, spec_register_sent, FixSyncState, LogoutReason, SideState,
    TransitionAction,
};
use crate::SessionError;

verus! {

/// Kinds of timer events the session distinguishes.
#[derive(Clone, Copy, Debug, PartialEq, Eq, Structural)]
pub enum TimerEventKind {
    Heartbeat,
}

/// One unit of outbound work owed to the transport collaborator.
#[derive(Debug)]
pub enum Command {
    /// Build a frame for this message (allocating a sequence number) and
    /// send it.
    SendMessage(FixMessage),
    /// Send this already-built frame as it stands — the replay path, which
    /// bypasses sequence allocation.
    SendFrame(FixFrame),
    /// Close the connection.
    Disconnect,
    /// Arm a one-shot heartbeat timeout this many milliseconds from now.
    ScheduleHeartbeat(u64),
}

/// Relies on chrono's `Utc::now`: the current wall-clock time, read as
/// milliseconds since the Unix epoch. Nothing is promised of the reading;
/// every function that consumes one is verified for all values.
#[verifier::external_body]
fn utc_now_millis() -> i64 {
    chrono::Utc::now().timestamp_millis()
}

/// A frame freshly built by the session: stamped `now`, identities and
/// protocol version from the configuration, no replay markings.
pub open spec fn frame_built(
    f: FixFrame,
    cfg: FixSessionConfig,
    message: FixMessage,
    seq: int,
    now: i64,
) -> bool {
    &&& f.header.msg_seq_num as int == seq
    &&& f.header.msg_type == message.spec_kind()
    &&& f.header.sending_time == now
    &&& f.header.sender_comp_id@ == cfg.sender_comp@
    &&& f.header.target_comp_id@ == cfg.target_comp@
    &&& f.header.begin_string@ == cfg.dictionary.spec_begin_string()
    &&& f.header.orig_sending_time is None
    &&& f.header.poss_dup_flag is None
    &&& f.message == message
}

/// A replay frame rebuilt from an entry: same sequence number, same body,
/// original sending time preserved, possible-duplicate flag set.
pub open spec fn replay_frame_built(
    f: FixFrame,
    cfg: FixSessionConfig,
    entry: MessageToReSend,
    now: i64,
) -> bool {
    &&& f.header.msg_seq_num == entry.seq
    &&& f.header.msg_type == entry.message.spec_kind()
    &&& f.header.sending_time == now
    &&& f.header.sender_comp_id@ == cfg.sender_comp@
    &&& f.header.target_comp_id@ == cfg.target_comp@
    &&& f.header.begin_string@ == cfg.dictionary.spec_begin_string()
    &&& f.header.orig_sending_time == Some(entry.orig_sending_time)
    &&& f.header.poss_dup_flag == Some(true)
    &&& f.message == entry.message
}

/// The first `plan.len()` commands replay the plan in order.
pub open spec fn resend_frames_ok(
    cmds: Seq<Command>,
    cfg: FixSessionConfig,
    plan: Seq<MessageToReSend>,
    now: i64,
) -> bool {
    &&& cmds.len() >= plan.len()
    &&& forall|i: int|
        0 <= i < plan.len() ==> ((#[trigger] cmds[i]) matches Command::SendFrame(f) && replay_frame_built(
            f,
            cfg,
            plan[i],
            now,
        ))
}

/// The admin reply owed once a frame produced no transition action: a test
/// request is answered with a heartbeat echoing its identifier; everything
/// else needs no traffic.
pub open spec fn admin_reply_ok(frame: FixFrame, cmds: Seq<Command>) -> bool {
    match frame.message {
        FixMessage::TestRequest { test_req_id } => {
            &&& cmds.len() == 1
            &&& cmds[0] matches Command::SendMessage(m) && m matches FixMessage::Heartbeat {
                test_req_id: tid,
            } && tid matches Some(t) && t@ == test_req_id@
        },
        _ => cmds.len() == 0,
    }
}

/// A graceful disconnect: a logout carrying the reason's text, then the
/// connection is closed.
pub open spec fn logout_reply_ok(reason: LogoutReason, cmds: Seq<Command>) -> bool {
    &&& cmds.len() == 2
    &&& cmds[0] matches Command::SendMessage(m) && m matches FixMessage::Logout { text } && text
        matches Some(t) && t@ == reason.spec_text()
    &&& cmds[1] is Disconnect
}

/// What `received` owes for each transition action, over the sent record
/// `log` and next outbound number `sender_seq` left by the recording step.
pub open spec fn recv_reply_ok(
    cfg: FixSessionConfig,
    log: Seq<FixFrame>,
    sender_seq: int,
    action: TransitionAction,
    frame: FixFrame,
    now: i64,
    r: Result<Vec<Command>, SessionError>,
) -> bool {
    match action {
        TransitionAction::NoAction => r matches Ok(cmds) && admin_reply_ok(frame, cmds@),
        TransitionAction::RequestResendRange(rng) => r matches Ok(cmds) && cmds@ =~= seq![
            Command::SendMessage(
                FixMessage::ResendRequest { begin_seq_no: rng.0, end_seq_no: rng.1 },
            ),
        ],
        TransitionAction::DoResendRange(rng) => {
            let hi = if rng.1 == 0 {
                sender_seq - 1
            } else {
                rng.1 as int
            };
            &&& (r is Ok <==> (rng.0 as int > hi || has_range(log, rng.0 as int, hi)))
            &&& r matches Ok(cmds) ==> {
                &&& resend_frames_ok(cmds@, cfg, replay_plan(log, rng.0 as int, hi), now)
                &&& cmds@.len() == replay_plan(log, rng.0 as int, hi).len()
            }
        },
        TransitionAction::DoResendAndRequestRange(snd, req) => {
            let hi = if snd.1 == 0 {
                sender_seq - 1
            } else {
                snd.1 as int
            };
            &&& (r is Ok <==> (snd.0 as int > hi || has_range(log, snd.0 as int, hi)))
            &&& r matches Ok(cmds) ==> {
                let plan = replay_plan(log, snd.0 as int, hi);
                &&& resend_frames_ok(cmds@, cfg, plan, now)
                &&& cmds@.len() == plan.len() + 1
                &&& cmds@[plan.len() as int] == Command::SendMessage(
                    FixMessage::ResendRequest { begin_seq_no: req.0, end_seq_no: req.1 },
                )
            }
        },
        TransitionAction::LogoutWith(reason) => r matches Ok(cmds) && logout_reply_ok(
            reason,
            cmds@,
        ),
    }
}

/// The commands owed to one heartbeat timer firing.
pub open spec fn timeout_commands_ok(
    cmds: Seq<Command>,
    test_request_due: bool,
    heartbeat_due: bool,
    period: int,
) -> bool {
    let sched = cmds.last() matches Command::ScheduleHeartbeat(p) && p as int == period;
    let n = cmds.len();
    &&& sched
    &&& n == 1 + (if test_request_due {
        1int
    } else {
        0int
    }) + (if heartbeat_due {
        1int
    } else {
        0int
    })
    &&& test_request_due ==> (cmds[0] matches Command::SendMessage(m) && m matches
        FixMessage::TestRequest { test_req_id } && test_req_id@ == "TEST"@)
    &&& heartbeat_due ==> (cmds[n - 2] matches Command::SendMessage(m) && m == (
    FixMessage::Heartbeat { test_req_id: None }))
}

/// The commands owed to a heartbeat firing of session `pre` at clock
/// reading `n`.
pub open spec fn spec_timeout_outcome(pre: SessionStateImpl, n: i64, cmds: Seq<Command>) -> bool {
    timeout_commands_ok(
        cmds,
        pre.state_machine.spec_both_operational() && spec_due(
            n,
            pre.last_sent,
            pre.config.heart_beat as int,
        ),
        pre.state_machine.spec_both_operational() && spec_due(
            n,
            pre.last_recv,
            pre.config.heart_beat as int,
        ),
        spec_timer_period_ms(pre.config.heart_beat as int),
    )
}

/// The session: configuration, liveness bookkeeping and the state machine,
/// which is the single owner of the message store.
pub struct SessionStateImpl {
    pub config: FixSessionConfig,
    /// Clock reading at the last outbound frame, if any.
    pub last_sent: Option<i64>,
    /// Clock reading at the last inbound frame, if any.
    pub last_recv: Option<i64>,
    /// Handle of the armed heartbeat timeout, as the transport reported it.
    pub heartbeat_timeout: Option<u64>,
    /// Protocol version tag stamped into every frame.
    pub begin_string: String,
    pub state_machine: FixSyncState,
}

impl SessionStateImpl {
    pub open spec fn wf(&self) -> bool {
        &&& self.config.wf()
        &&& self.state_machine.wf()
        &&& self.begin_string@ == self.config.dictionary.spec_begin_string()
    }

    /// Everything but the liveness timestamps and the state machine is kept.
    pub open spec fn same_shell(pre: Self, post: Self) -> bool {
        &&& post.config == pre.config
        &&& post.heartbeat_timeout == pre.heartbeat_timeout
        &&& post.begin_string == pre.begin_string
    }

    /// A fresh session around a store: nothing sent, nothing received, both
    /// sides merely connected.
    pub fn new(cfg: &FixSessionConfig, store: MemoryMessageStore) -> (r: SessionStateImpl)
        requires
            cfg.wf(),
            store.wf(),
        ensures
            r.wf(),
            r.config == *cfg,
            r.last_sent is None,
            r.last_recv is None,
            r.heartbeat_timeout is None,
            r.state_machine.us == SideState::Connected,
            r.state_machine.them == SideState::Connected,
            r.state_machine.store == store,
    {
        SessionStateImpl {
            config: cfg.clone(),
            last_sent: None,
            last_recv: None,
            heartbeat_timeout: None,
            begin_string: cfg.dictionary.begin_string().to_owned(),
            state_machine: FixSyncState::new(store),
        }
    }

    pub fn is_operational(&self) -> (r: bool)
        ensures
            r == self.state_machine.spec_both_operational(),
    {
        self.state_machine.are_both_operational()
    }

    /// Starts the session: resets the counters when configured to, then
    /// owes the transport a logon and an armed heartbeat timer. The state
    /// machine moves only when the logon is reported back through `sent`.
    pub fn init(&mut self) -> (r: Vec<Command>)
        requires
            old(self).wf(),
        ensures
            final(self).wf(),
            Self::same_shell(*old(self), *final(self)),
            final(self).last_sent == old(self).last_sent,
            final(self).last_recv == old(self).last_recv,
            final(self).state_machine.us == old(self).state_machine.us,
            final(self).state_machine.them == old(self).state_machine.them,
            old(self).config.reset_seq_num ==> {
                &&& final(self).state_machine.store.sender_seq == 1
                &&& final(self).state_machine.store.target_seq == 1
                &&& final(self).state_machine.store.sent_log@ =~= Seq::<FixFrame>::empty()
                &&& final(self).state_machine.store.recv_log@ =~= Seq::<FixFrame>::empty()
            },
            !old(self).config.reset_seq_num ==> final(self).state_machine.store == old(
                self,
            ).state_machine.store,
            r@.len() == 2,
            r@[0] == Command::SendMessage(
                FixMessage::Logon {
                    encrypt_method: EncryptMethod::Unencrypted,
                    heart_bt_int: old(self).config.heart_beat,
                    reset_seq_num_flag: Some(old(self).config.reset_seq_num),
                },
            ),
            r@[1] matches Command::ScheduleHeartbeat(p) && p as int == spec_timer_period_ms(
                old(self).config.heart_beat as int,
            ),
    {
        let reset = self.config.reset_seq_num;
        if reset {
            let _ = self.state_machine.store.reset_seqs();
        }
        let logon = FixMessage::Logon {
            encrypt_method: EncryptMethod::Unencrypted,
            heart_bt_int: self.config.heart_beat,
            reset_seq_num_flag: Some(reset),
        };
        let mut cmds: Vec<Command> = Vec::new();
        cmds.push(Command::SendMessage(logon));
        cmds.push(Command::ScheduleHeartbeat(timer_period_ms(self.config.heart_beat)));
        cmds
    }

    /// Builds an outbound frame at clock reading `now`: allocates the next
    /// sequence number when `fill_seq` is set, otherwise leaves 0 for the
    /// replay path to overwrite.
    pub fn build_frame_at(&mut self, message: FixMessage, fill_seq: bool, now: i64) -> (r: Result<
        FixFrame,
        SessionError,
    >)
        requires
            old(self).wf(),
            fill_seq ==> old(self).state_machine.store.sender_seq < i32::MAX,
        ensures
            final(self).wf(),
            Self::same_shell(*old(self), *final(self)),
            final(self).last_sent == old(self).last_sent,
            final(self).last_recv == old(self).last_recv,
            final(self).state_machine.us == old(self).state_machine.us,
            final(self).state_machine.them == old(self).state_machine.them,
            final(self).state_machine.store.target_seq == old(self).state_machine.store.target_seq,
            final(self).state_machine.store.sent_log@ == old(self).state_machine.store.sent_log@,
            final(self).state_machine.store.recv_log@ == old(self).state_machine.store.recv_log@,
            fill_seq ==> final(self).state_machine.store.sender_seq == old(
                self,
            ).state_machine.store.sender_seq + 1,
            !fill_seq ==> final(self).state_machine.store.sender_seq == old(
                self,
            ).state_machine.store.sender_seq,
            r matches Ok(f) && frame_built(
                f,
                old(self).config,
                message,
                if fill_seq {
                    old(self).state_machine.store.sender_seq as int
                } else {
                    0
                },
                now,
            ),
    {
        let next_seq: i32 = if fill_seq {
            match self.state_machine.store.incr_sender_seq_num() {
                Ok(n) => n,
                Err(e) => {
                    return Err(e);
                },
            }
        } else {
            0
        };
        let frame = FixFrame {
            header: FixHeader {
                msg_seq_num: next_seq,
                msg_type: message.msg_type(),
                sending_time: now,
                sender_comp_id: self.config.sender_comp.clone(),
                target_comp_id: self.config.target_comp.clone(),
                begin_string: self.begin_string.clone(),
                orig_sending_time: None,
                poss_dup_flag: None,
            },
            message,
        };
        Ok(frame)
    }

    /// As [`Self::build_frame_at`], stamped with the wall clock.
    pub fn build_frame(&mut self, message: FixMessage, fill_seq: bool) -> (r: Result<
        FixFrame,
        SessionError,
    >)
        requires
            old(self).wf(),
            fill_seq ==> old(self).state_machine.store.sender_seq < i32::MAX,
        ensures
            final(self).wf(),
            Self::same_shell(*old(self), *final(self)),
            final(self).last_sent == old(self).last_sent,
            final(self).last_recv == old(self).last_recv,
            final(self).state_machine.us == old(self).state_machine.us,
            final(self).state_machine.them == old(self).state_machine.them,
            final(self).state_machine.store.target_seq == old(self).state_machine.store.target_seq,
            final(self).state_machine.store.sent_log@ == old(self).state_machine.store.sent_log@,
            final(self).state_machine.store.recv_log@ == old(self).state_machine.store.recv_log@,
            fill_seq ==> final(self).state_machine.store.sender_seq == old(
                self,
            ).state_machine.store.sender_seq + 1,
            !fill_seq ==> final(self).state_machine.store.sender_seq == old(
                self,
            ).state_machine.store.sender_seq,
            r matches Ok(f) && frame_built(
                f,
                old(self).config,
                message,
                if fill_seq {
                    old(self).state_machine.store.sender_seq as int
                } else {
                    0
                },
                f.header.sending_time,
            ),
    {
        let now = utc_now_millis();
        self.build_frame_at(message, fill_seq, now)
    }

    /// Rebuilds the full frame for one replay entry: same sequence number,
    /// same body, original sending time preserved, possible-duplicate flag
    /// set. This is the only path by which an outbound frame does not carry
    /// a freshly allocated sequence number.
    pub fn build_frame_for_resend_at(&self, entry: MessageToReSend, now: i64) -> (r: FixFrame)
        requires
            self.wf(),
        ensures
            replay_frame_built(r, self.config, entry, now),
    {
        FixFrame {
            header: FixHeader {
                msg_seq_num: entry.seq,
                msg_type: entry.message.msg_type(),
                sending_time: now,
                sender_comp_id: self.config.sender_comp.clone(),
                target_comp_id: self.config.target_comp.clone(),
                begin_string: self.begin_string.clone(),
                orig_sending_time: Some(entry.orig_sending_time),
                poss_dup_flag: Some(true),
            },
            message: entry.message,
        }
    }

    /// As [`Self::build_frame_for_resend_at`], stamped with the wall clock.
    pub fn build_frame_for_resend(&self, entry: MessageToReSend) -> (r: FixFrame)
        requires
            self.wf(),
        ensures
            replay_frame_built(r, self.config, entry, r.header.sending_time),
    {
        let now = utc_now_millis();
        self.build_frame_for_resend_at(entry, now)
    }

    /// Replays the sent range `[start, end]` (`end == 0`: through the most
    /// recent) as commands, one rebuilt frame per replay entry. Fails
    /// exactly when the store's record is not contiguous over the range.
    fn do_resend_at(&self, start: i32, end: i32, now: i64) -> (r: Result<
        Vec<Command>,
        SessionError,
    >)
        requires
            self.wf(),
            0 <= end < i32::MAX,
        ensures
            ({
                let log = self.state_machine.store.sent_log@;
                let hi = spec_resend_hi(self.state_machine.store, end);
                &&& (r is Ok <==> (start as int > hi || has_range(log, start as int, hi)))
                &&& r matches Ok(cmds) ==> {
                    &&& resend_frames_ok(cmds@, self.config, replay_plan(log, start as int, hi), now)
                    &&& cmds@.len() == replay_plan(log, start as int, hi).len()
                }
                &&& r matches Err(e) ==> e matches SessionError::ResendDataLoss { missing_seq }
                    && start as int <= missing_seq as int <= hi && !has_sent(log, missing_seq as int)
            }),
    {
        let entries = match build_resend_request_response(&self.state_machine.store, start, end) {
            Ok(v) => v,
            Err(e) => {
                return Err(e);
            },
        };
        let ghost plan = entries@;
        let mut cmds: Vec<Command> = Vec::new();
        let mut i: usize = 0;
        while i < entries.len()
            invariant
                self.wf(),
                i <= entries.len(),
                entries@ == plan,
                cmds@.len() == i,
                forall|k: int|
                    0 <= k < i ==> ((#[trigger] cmds@[k]) matches Command::SendFrame(f) && replay_frame_built(
                        f,
                        self.config,
                        plan[k],
                        now,
                    )),
            decreases entries.len() - i,
        {
            let entry = entries[i].clone();
            let frame = self.build_frame_for_resend_at(entry, now);
            cmds.push(Command::SendFrame(frame));
            i = i + 1;
        }
        Ok(cmds)
    }

    /// The command that asks the counterparty for the range `[start, end]`.
    fn request_resend(&self, start: i32, end: i32) -> (c: Command)
        ensures
            c == Command::SendMessage(
                FixMessage::ResendRequest { begin_seq_no: start, end_seq_no: end },
            ),
    {
        Command::SendMessage(FixMessage::ResendRequest { begin_seq_no: start, end_seq_no: end })
    }

    /// The graceful-disconnect command pair for a reason.
    fn post_disconnect(&self, reason: LogoutReason) -> (r: Vec<Command>)
        ensures
            logout_reply_ok(reason, r@),
    {
        let mut cmds: Vec<Command> = Vec::new();
        cmds.push(
            Command::SendMessage(FixMessage::Logout { text: Some(reason.text().to_owned()) }),
        );
        cmds.push(Command::Disconnect);
        cmds
    }

    /// Handles one inbound frame at clock reading `now`: records it,
    /// updates liveness, moves the state machine, and turns the resulting
    /// transition action into commands; when no action is owed, answers the
    /// remaining admin traffic (a test request earns a heartbeat reply).
    /// Fails only when a demanded replay hits a hole in the sent record; the
    /// recording and the transition stay committed in that case.
    pub fn received_at(&mut self, frame: &FixFrame, now: i64) -> (r: Result<
        Vec<Command>,
        SessionError,
    >)
        requires
            old(self).wf(),
            frame.seq() < i32::MAX,
            frame.message matches FixMessage::ResendRequest { begin_seq_no, end_seq_no } ==> 0
                <= end_seq_no < i32::MAX,
        ensures
            final(self).wf(),
            Self::same_shell(*old(self), *final(self)),
            final(self).last_sent == old(self).last_sent,
            final(self).last_recv == Some(now),
            ({
                let step = spec_register_recv(
                    old(self).state_machine.us,
                    old(self).state_machine.them,
                    old(self).state_machine.store.target_seq as int,
                    *frame,
                );
                &&& final(self).state_machine.us == step.0
                &&& final(self).state_machine.them == step.1
                &&& final(self).state_machine.store.target_seq as int == step.2
                &&& recv_reply_ok(
                    old(self).config,
                    old(self).state_machine.store.sent_log@,
                    old(self).state_machine.store.sender_seq as int,
                    step.3,
                    *frame,
                    now,
                    r,
                )
            }),
            final(self).state_machine.store.sender_seq == old(self).state_machine.store.sender_seq,
            final(self).state_machine.store.sent_log@ == old(self).state_machine.store.sent_log@,
            final(self).state_machine.store.recv_log@ == old(
                self,
            ).state_machine.store.recv_log@.push(*frame),
    {
        let _ = self.state_machine.store.received(frame);
        self.last_recv = Some(now);
        let action = match self.state_machine.register_recv(frame) {
            Ok(a) => a,
            Err(e) => {
                return Err(e);
            },
        };
        match action {
            TransitionAction::RequestResendRange(range) => {
                let mut cmds: Vec<Command> = Vec::new();
                cmds.push(self.request_resend(range.0, range.1));
                Ok(cmds)
            },
            TransitionAction::DoResendRange(range) => self.do_resend_at(range.0, range.1, now),
            TransitionAction::DoResendAndRequestRange(send_range, req_range) => {
                let mut cmds = match self.do_resend_at(send_range.0, send_range.1, now) {
                    Ok(v) => v,
                    Err(e) => {
                        return Err(e);
                    },
                };
                cmds.push(self.request_resend(req_range.0, req_range.1));
                Ok(cmds)
            },
            TransitionAction::LogoutWith(reason) => Ok(self.post_disconnect(reason)),
            TransitionAction::NoAction => {
                match &frame.message {
                    FixMessage::TestRequest { test_req_id } => {
                        let mut cmds: Vec<Command> = Vec::new();
                        cmds.push(
                            Command::SendMessage(
                                FixMessage::Heartbeat { test_req_id: Some(test_req_id.clone()) },
                            ),
                        );
                        Ok(cmds)
                    },
                    _ => Ok(Vec::new()),
                }
            },
        }
    }

    /// As [`Self::received_at`], stamped with the wall clock.
    pub fn received(&mut self, frame: &FixFrame) -> (r: Result<Vec<Command>, SessionError>)
        requires
            old(self).wf(),
            frame.seq() < i32::MAX,
            frame.message matches FixMessage::ResendRequest { begin_seq_no, end_seq_no } ==> 0
                <= end_seq_no < i32::MAX,
        ensures
            final(self).wf(),
            Self::same_shell(*old(self), *final(self)),
            final(self).last_sent == old(self).last_sent,
            final(self).last_recv is Some,
            ({
                let step = spec_register_recv(
                    old(self).state_machine.us,
                    old(self).state_machine.them,
                    old(self).state_machine.store.target_seq as int,
                    *frame,
                );
                &&& final(self).state_machine.us == step.0
                &&& final(self).state_machine.them == step.1
                &&& final(self).state_machine.store.target_seq as int == step.2
            }),
            final(self).state_machine.store.sender_seq == old(self).state_machine.store.sender_seq,
            final(self).state_machine.store.sent_log@ == old(self).state_machine.store.sent_log@,
            final(self).state_machine.store.recv_log@ == old(
                self,
            ).state_machine.store.recv_log@.push(*frame),
            exists|n: i64|
                #[trigger] recv_reply_ok(
                    old(self).config,
                    old(self).state_machine.store.sent_log@,
                    old(self).state_machine.store.sender_seq as int,
                    spec_register_recv(
                        old(self).state_machine.us,
                        old(self).state_machine.them,
                        old(self).state_machine.store.target_seq as int,
                        *frame,
                    ).3,
                    *frame,
                    n,
                    r,
                ),
    {
        let now = utc_now_millis();
        self.received_at(frame, now)
    }

    /// Records one outbound frame at clock reading `now`: the state machine
    /// sees it first, liveness is updated, then the store records it.
    pub fn sent_at(&mut self, frame: &FixFrame, now: i64) -> (r: Result<(), SessionError>)
        requires
            old(self).wf(),
        ensures
            r is Ok,
            final(self).wf(),
            Self::same_shell(*old(self), *final(self)),
            final(self).last_recv == old(self).last_recv,
            final(self).last_sent == Some(now),
            (final(self).state_machine.us, final(self).state_machine.them) == spec_register_sent(
                old(self).state_machine.us,
                old(self).state_machine.them,
                old(self).state_machine.store.sender_seq as int,
                *frame,
            ),
            final(self).state_machine.store.sender_seq == old(self).state_machine.store.sender_seq,
            final(self).state_machine.store.target_seq == old(self).state_machine.store.target_seq,
            final(self).state_machine.store.recv_log@ == old(self).state_machine.store.recv_log@,
            final(self).state_machine.store.sent_log@ == old(
                self,
            ).state_machine.store.sent_log@.push(*frame),
    {
        let _ = match self.state_machine.register_sent(frame) {
            Ok(a) => a,
            Err(e) => {
                return Err(e);
            },
        };
        self.last_sent = Some(now);
        let _ = self.state_machine.store.sent(frame);
        Ok(())
    }

    /// As [`Self::sent_at`], stamped with the wall clock.
    pub fn sent(&mut self, frame: &FixFrame) -> (r: Result<(), SessionError>)
        requires
            old(self).wf(),
        ensures
            r is Ok,
            final(self).wf(),
            Self::same_shell(*old(self), *final(self)),
            final(self).last_recv == old(self).last_recv,
            final(self).last_sent is Some,
            (final(self).state_machine.us, final(self).state_machine.them) == spec_register_sent(
                old(self).state_machine.us,
                old(self).state_machine.them,
                old(self).state_machine.store.sender_seq as int,
                *frame,
            ),
            final(self).state_machine.store.sender_seq == old(self).state_machine.store.sender_seq,
            final(self).state_machine.store.target_seq == old(self).state_machine.store.target_seq,
            final(self).state_machine.store.recv_log@ == old(self).state_machine.store.recv_log@,
            final(self).state_machine.store.sent_log@ == old(
                self,
            ).state_machine.store.sent_log@.push(*frame),
    {
        let now = utc_now_millis();
        self.sent_at(frame, now)
    }

    /// Remembers the handle of a freshly armed timer.
    pub fn new_timeout(&mut self, timeout: u64, event_kind: TimerEventKind)
        ensures
            final(self).heartbeat_timeout == Some(timeout),
            final(self).config == old(self).config,
            final(self).last_sent == old(self).last_sent,
            final(self).last_recv == old(self).last_recv,
            final(self).begin_string == old(self).begin_string,
            final(self).state_machine == old(self).state_machine,
    {
        match event_kind {
            TimerEventKind::Heartbeat => {
                self.heartbeat_timeout = Some(timeout);
            },
        }
    }

    /// Handles one timer firing at clock reading `now`: while operational,
    /// quiet directions earn a test request (outbound silence) or an
    /// unsolicited heartbeat (inbound silence); the timer is rearmed
    /// whatever the state.
    pub fn on_timeout_at(&mut self, event_kind: TimerEventKind, now: i64) -> (r: Vec<Command>)
        requires
            old(self).wf(),
        ensures
            *final(self) == *old(self),
            timeout_commands_ok(
                r@,
                old(self).state_machine.spec_both_operational() && spec_due(
                    now,
                    old(self).last_sent,
                    old(self).config.heart_beat as int,
                ),
                old(self).state_machine.spec_both_operational() && spec_due(
                    now,
                    old(self).last_recv,
                    old(self).config.heart_beat as int,
                ),
                spec_timer_period_ms(old(self).config.heart_beat as int),
            ),
    {
        let _ = event_kind;
        let operational = self.is_operational();
        let plan: HeartbeatPlan = plan_on_timeout(
            operational,
            self.last_sent,
            self.last_recv,
            now,
            self.config.heart_beat,
        );
        let mut cmds: Vec<Command> = Vec::new();
        if plan.send_test_request {
            cmds.push(
                Command::SendMessage(FixMessage::TestRequest { test_req_id: "TEST".to_owned() }),
            );
        }
        if plan.send_heartbeat {
            cmds.push(Command::SendMessage(FixMessage::Heartbeat { test_req_id: None }));
        }
        cmds.push(Command::ScheduleHeartbeat(timer_period_ms(self.config.heart_beat)));
        cmds
    }

    /// As [`Self::on_timeout_at`], read off the wall clock. The timer is
    /// rearmed whatever the clock said.
    pub fn on_timeout(&mut self, event_kind: TimerEventKind) -> (r: Vec<Command>)
        requires
            old(self).wf(),
        ensures
            *final(self) == *old(self),
            r@.len() >= 1,
            r@.last() matches Command::ScheduleHeartbeat(p) && p as int == spec_timer_period_ms(
                old(self).config.heart_beat as int,
            ),
            exists|n: i64| #[trigger] spec_timeout_outcome(*old(self), n, r@),
    {
        let now = utc_now_millis();
        let r = self.on_timeout_at(event_kind, now);
        proof {
            assert(spec_timeout_outcome(*old(self), now, r@));
        }
        r
    }

    /// Closes the session, consuming it and its store.
    pub fn close(self) -> (r: Result<(), SessionError>)
        ensures
            r is Ok,
    {
        self.state_machine.store.close()
    }
}

} // verus!
