//! The request/response discipline of the datagram transport: correlation by
//! sequence number and a bounded number of transmissions.
use vstd::prelude::*;

use crate::game::HangmanEvent;

verus! {

/// How many times a request is sent before the transport gives up on it.
pub const MAX_SENDS: u32 = 3;

#[derive(Clone, Copy, Debug, PartialEq, Eq, Structural)]
pub enum ConnectError {
    /// No handshake acknowledgment arrived in time.
    Unreachable,
}

#[derive(Clone, Copy, Debug, PartialEq, Eq, Structural)]
pub enum TransportError {
    /// Every transmission of a request went unanswered.
    NoResponse,
}

/// What the client asks of the coordinator.
#[derive(Clone, Debug)]
pub enum Request {
    Handshake,
    Join(u64),
    Guess(String),
}

/// The coordinator's answer to a request.
#[derive(Clone, Debug)]
pub enum Reply {
    HandshakeAck,
    /// The game exists: its secret word, its allowance of wrong guesses, and
    /// its participants.
    JoinAccepted(String, u64, Vec<u64>),
    JoinRejected,
    /// The authoritative result of a guess.
    Guessed(HangmanEvent),
}

/// A request together with the sequence number its reply must echo.
#[derive(Clone, Debug)]
pub struct Outgoing {
    pub seq: u64,
    pub request: Request,
}

/// The sequence number after `seq`; the counter wraps at its end.
pub open spec fn successor(seq: u64) -> u64 {
    if seq == u64::MAX {
        0
    } else {
        (seq + 1) as u64
    }
}

pub fn next_seq(seq: u64) -> (r: u64)
    ensures
        r == successor(seq),
{
    if seq == u64::MAX {
        0
    } else {
        seq + 1
    }
}

/// A request in flight: the sequence number it carries and how many times it
/// has been sent.
#[derive(Clone, Copy, Debug, PartialEq, Eq, Structural)]
pub struct Pending {
    pub seq: u64,
    pub sends: u32,
}

impl Pending {
    /// A request just sent for the first time.
    pub fn new(seq: u64) -> (r: Pending)
        ensures
            r.seq == seq,
            r.sends == 1,
    {
        Pending { seq, sends: 1 }
    }

    /// Whether a reply carrying `seq` answers this request.
    pub fn accepts(&self, seq: u64) -> (r: bool)
        ensures
            r == (seq == self.seq),
    {
        seq == self.seq
    }

    /// The wait for a reply timed out. Returns whether to send the request
    /// again; if so, the send is counted. Returns false once the request has
    /// been sent `MAX_SENDS` times, and the request has then failed with
    /// `TransportError::NoResponse`.
    pub fn on_timeout(&mut self) -> (resend: bool)
        ensures
            resend == (old(self).sends < MAX_SENDS),
            final(self).seq == old(self).seq,
            final(self).sends == if resend { old(self).sends + 1 } else { old(self).sends as int },
    {
        if self.sends < MAX_SENDS {
            self.sends = self.sends + 1;
            true
        } else {
            false
        }
    }
}

} // verus!
