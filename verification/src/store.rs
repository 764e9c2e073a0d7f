//! In-memory message store: it owns the two monotonic sequence counters and
//! the record of every frame sent or received. The sequence-synchronization
//! state machine is its single owner; nothing else mutates it.

use vstd::prelude::*;
use crate::messages::FixFrame;
use crate::config::FixSessionConfig;
use crate::SessionError;

verus! {

/// Message store kept in memory. `sender_seq` is the next outbound sequence
/// number to allocate; `target_seq` is the next inbound sequence number the
/// session expects.
pub struct MemoryMessageStore {
    pub sender_seq: i32,
    pub target_seq: i32,
    pub sent_log: Vec<FixFrame>,
    pub recv_log: Vec<FixFrame>,
}

impl MemoryMessageStore {
    /// Both counters stay positive; sequence numbering starts at 1.
    pub open spec fn wf(&self) -> bool {
        1 <= self.sender_seq && 1 <= self.target_seq
    }

    /// A fresh store: both counters at 1, both logs empty.
    pub fn new(cfg: &FixSessionConfig) -> (r: Result<MemoryMessageStore, SessionError>)
        ensures
            r is Ok,
            r matches Ok(s) && s.wf(),
            r matches Ok(s) && s.sender_seq == 1,
            r matches Ok(s) && s.target_seq == 1,
            r matches Ok(s) && s.sent_log@ =~= Seq::<FixFrame>::empty(),
            r matches Ok(s) && s.recv_log@ =~= Seq::<FixFrame>::empty(),
    {
        let _ = cfg;  // the in-memory store needs no paths from the configuration
        Ok(MemoryMessageStore {
            sender_seq: 1,
            target_seq: 1,
            sent_log: Vec::new(),
            recv_log: Vec::new(),
        })
    }

    /// Resets both counters to 1 and clears the record, as done at session
    /// start when the configuration asks for fresh sequences.
    pub fn reset_seqs(&mut self) -> (r: Result<(), SessionError>)
        ensures
            r is Ok,
            final(self).wf(),
            final(self).sender_seq == 1,
            final(self).target_seq == 1,
            final(self).sent_log@ =~= Seq::<FixFrame>::empty(),
            final(self).recv_log@ =~= Seq::<FixFrame>::empty(),
    {
        self.sender_seq = 1;
        self.target_seq = 1;
        self.sent_log = Vec::new();
        self.recv_log = Vec::new();
        Ok(())
    }

    /// Allocates the next outbound sequence number: returns the current value
    /// and advances the counter by exactly one, so numbers are never reused.
    pub fn incr_sender_seq_num(&mut self) -> (r: Result<i32, SessionError>)
        requires
            old(self).wf(),
            old(self).sender_seq < i32::MAX,
        ensures
            r matches Ok(n) && n == old(self).sender_seq,
            final(self).sender_seq == old(self).sender_seq + 1,
            final(self).target_seq == old(self).target_seq,
            final(self).sent_log@ == old(self).sent_log@,
            final(self).recv_log@ == old(self).recv_log@,
            final(self).wf(),
    {
        let n = self.sender_seq;
        self.sender_seq = self.sender_seq + 1;
        Ok(n)
    }

    /// Records one received frame; counters are untouched (the state machine
    /// advances the expectation itself).
    pub fn received(&mut self, frame: &FixFrame) -> (r: Result<(), SessionError>)
        ensures
            r is Ok,
            final(self).recv_log@ == old(self).recv_log@.push(*frame),
            final(self).sent_log@ == old(self).sent_log@,
            final(self).sender_seq == old(self).sender_seq,
            final(self).target_seq == old(self).target_seq,
    {
        self.recv_log.push(frame.clone());
        Ok(())
    }

    /// Records one sent frame.
    pub fn sent(&mut self, frame: &FixFrame) -> (r: Result<(), SessionError>)
        ensures
            r is Ok,
            final(self).sent_log@ == old(self).sent_log@.push(*frame),
            final(self).recv_log@ == old(self).recv_log@,
            final(self).sender_seq == old(self).sender_seq,
            final(self).target_seq == old(self).target_seq,
    {
        self.sent_log.push(frame.clone());
        Ok(())
    }

    /// Moves the expected-inbound counter to `to`; only the state machine
    /// calls this, and only forward.
    pub(crate) fn set_expected_incoming(&mut self, to: i32)
        requires
            1 <= to,
        ensures
            final(self).target_seq == to,
            final(self).sender_seq == old(self).sender_seq,
            final(self).sent_log@ == old(self).sent_log@,
            final(self).recv_log@ == old(self).recv_log@,
    {
        self.target_seq = to;
    }

    /// Closes the store, consuming it.
    pub fn close(self) -> (r: Result<(), SessionError>)
        ensures
            r is Ok,
    {
        Ok(())
    }
}

} // verus!
