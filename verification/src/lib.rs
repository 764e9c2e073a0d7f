//! Session layer of a FIX (Financial Information eXchange) engine.
//!
//! The library keeps the logical connection between two counterparties in
//! sync: it drives the logon handshake, enforces gap-free sequencing in both
//! directions, repairs gaps through resend requests and gap fills, and
//! supervises liveness with heartbeats. All decision logic is verified; the
//! transport and timer collaborators act on the commands the session returns.

pub mod builder;
pub mod config;
pub mod heartbeat;
pub mod laws;
pub mod messages;
pub mod resend;
pub mod session;
pub mod store;
pub mod syncstate;

use vstd::prelude::*;

verus! {

/// A sequence number is valid once it is positive; `i32::MAX` is excluded so
/// that the successor of an observed number always fits.
pub open spec fn valid_seq(n: int) -> bool {
    1 <= n < i32::MAX
}

/// Errors of the session layer. Protocol violations are not errors: they
/// surface as a logout transition. What remains is data loss: the store
/// cannot produce a contiguous record for a requested replay range.
#[derive(Clone, Copy, Debug, PartialEq, Eq, Structural)]
pub enum SessionError {
    /// The sent record holds no frame with this sequence number although the
    /// requested replay range contains it.
    ResendDataLoss { missing_seq: i32 },
}

} // verus!
