//! Immutable per-session configuration, set before construction and never
//! mutated afterwards.

use vstd::prelude::*;

verus! {

/// Protocol dictionary version; it fixes the begin-string tag of every frame.
#[derive(Clone, Copy, Debug, PartialEq, Eq, Structural)]
pub enum FixDictionary {
    Fix42,
    Fix44,
}

impl FixDictionary {
    /// The begin-string text of this dictionary version.
    pub open spec fn spec_begin_string(self) -> Seq<char> {
        match self {
            FixDictionary::Fix42 => "FIX.4.2"@,
            FixDictionary::Fix44 => "FIX.4.4"@,
        }
    }

    /// Executable mirror of [`Self::spec_begin_string`].
    pub fn begin_string(self) -> (r: &'static str)
        ensures
            r@ == self.spec_begin_string(),
    {
        match self {
            FixDictionary::Fix42 => "FIX.4.2",
            FixDictionary::Fix44 => "FIX.4.4",
        }
    }
}

/// Immutable per-session parameters.
pub struct FixSessionConfig {
    pub qualifier: String,
    pub sender_comp: String,
    pub target_comp: String,
    pub host: String,
    pub port: u16,
    /// Heartbeat interval in seconds.
    pub heart_beat: i32,
    pub log_dir: String,
    pub store_dir: String,
    pub dictionary: FixDictionary,
    /// Whether sequence counters are reset when the session connects.
    pub reset_seq_num: bool,
}

impl FixSessionConfig {
    /// A configuration is well formed when its heartbeat interval is not
    /// negative.
    pub open spec fn wf(&self) -> bool {
        0 <= self.heart_beat
    }

    /// Builds a configuration; the reset-on-connect flag starts out false.
    pub fn new(
        qualifier: &str,
        sender_comp: &str,
        target_comp: &str,
        host: &str,
        port: u16,
        heart_beat: i32,
        log_dir: &str,
        store_dir: &str,
        dictionary: FixDictionary,
    ) -> (r: FixSessionConfig)
        requires
            0 <= heart_beat,
        ensures
            r.wf(),
            r.qualifier@ == qualifier@,
            r.sender_comp@ == sender_comp@,
            r.target_comp@ == target_comp@,
            r.host@ == host@,
            r.port == port,
            r.heart_beat == heart_beat,
            r.log_dir@ == log_dir@,
            r.store_dir@ == store_dir@,
            r.dictionary == dictionary,
            r.reset_seq_num == false,
    {
        FixSessionConfig {
            qualifier: qualifier.to_owned(),
            sender_comp: sender_comp.to_owned(),
            target_comp: target_comp.to_owned(),
            host: host.to_owned(),
            port,
            heart_beat,
            log_dir: log_dir.to_owned(),
            store_dir: store_dir.to_owned(),
            dictionary,
            reset_seq_num: false,
        }
    }

    /// The same configuration with the reset-on-connect flag replaced.
    pub fn with_reset_seq_num(self, reset: bool) -> (r: FixSessionConfig)
        ensures
            r == (FixSessionConfig { reset_seq_num: reset, ..self }),
    {
        FixSessionConfig { reset_seq_num: reset, ..self }
    }
}

impl Clone for FixSessionConfig {
    fn clone(&self) -> (r: Self)
        ensures
            r == *self,
    {
        FixSessionConfig {
            qualifier: self.qualifier.clone(),
            sender_comp: self.sender_comp.clone(),
            target_comp: self.target_comp.clone(),
            host: self.host.clone(),
            port: self.port,
            heart_beat: self.heart_beat,
            log_dir: self.log_dir.clone(),
            store_dir: self.store_dir.clone(),
            dictionary: self.dictionary,
            reset_seq_num: self.reset_seq_num,
        }
    }
}

} // verus!
