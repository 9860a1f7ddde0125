use vstd::prelude::*;
use crate::codec::{
    auth_complete, auth_reply, connect_reply, connect_reply_bytes, greeting_error, greeting_reply,
    greeting_valid, parse_auth, parse_greeting, parse_request, request_error, request_valid,
    requested, Destination, HandshakeError, AUTH_VERSION, METHOD_USER_PASS, SOCKS_VERSION,
};

verus! {

/// Where a client connection stands in the negotiation.
#[derive(Debug, Clone, Copy, PartialEq, Eq, Structural)]
pub enum Phase {
    /// Waiting for the method-selection greeting.
    Greeting,
    /// Waiting for the username/password sub-negotiation.
    Auth,
    /// Waiting for the CONNECT request.
    Request,
    /// A destination was accepted; the relay phase may begin.
    Resolved,
    /// The negotiation failed; the connection is to be closed.
    Aborted,
}

/// What the connection's driver does after handing a message to the engine.
pub enum Step {
    /// Write these bytes to the client, then read its next message.
    Reply(Vec<u8>),
    /// Resolve and open the destination; on success write the reply bytes to
    /// the client and start relaying, on failure close with no reply.
    Connect(Destination, Vec<u8>),
    /// Close the connection without a reply.
    Abort(HandshakeError),
}

/// The negotiation engine of one client connection: each message read from
/// the client advances it by exactly one phase or aborts it.
pub struct Handshake {
    pub phase: Phase,
}

impl Handshake {
    /// A fresh engine for a newly accepted connection.
    pub fn new() -> (h: Handshake)
        ensures
            h.phase == Phase::Greeting,
    {
        Handshake { phase: Phase::Greeting }
    }

    /// The engine still expects a message from the client.
    pub open spec fn awaiting(&self) -> bool {
        self.phase == Phase::Greeting || self.phase == Phase::Auth || self.phase
            == Phase::Request
    }

    /// Whether the engine still expects a message from the client.
    pub fn is_awaiting(&self) -> (r: bool)
        ensures
            r == self.awaiting(),
    {
        match self.phase {
            Phase::Greeting | Phase::Auth | Phase::Request => true,
            _ => false,
        }
    }

    /// Hands the engine the next message read from the client.
    ///
    /// A valid greeting is answered with the username/password selection,
    /// whatever methods it offers; a complete credential message is answered
    /// with success; a valid CONNECT request yields its destination and the
    /// fixed success reply. Anything else aborts with no reply.
    pub fn step(&mut self, msg: &[u8]) -> (s: Step)
        requires
            old(self).awaiting(),
        ensures
            old(self).phase == Phase::Greeting && greeting_valid(msg@) ==> {
                &&& s is Reply
                &&& s->Reply_0@ == seq![SOCKS_VERSION, METHOD_USER_PASS]
                &&& final(self).phase == Phase::Auth
            },
            old(self).phase == Phase::Greeting && !greeting_valid(msg@) ==> {
                &&& s is Abort
                &&& s->Abort_0 == greeting_error(msg@)
                &&& final(self).phase == Phase::Aborted
            },
            old(self).phase == Phase::Auth && auth_complete(msg@) ==> {
                &&& s is Reply
                &&& s->Reply_0@ == seq![AUTH_VERSION, 0u8]
                &&& final(self).phase == Phase::Request
            },
            old(self).phase == Phase::Auth && !auth_complete(msg@) ==> {
                &&& s is Abort
                &&& s->Abort_0 == HandshakeError::Truncated
                &&& final(self).phase == Phase::Aborted
            },
            old(self).phase == Phase::Request && request_valid(msg@) ==> {
                &&& s is Connect
                &&& s->Connect_0@ == requested(msg@)
                &&& s->Connect_1@ == connect_reply_bytes()
                &&& final(self).phase == Phase::Resolved
            },
            old(self).phase == Phase::Request && !request_valid(msg@) ==> {
                &&& s is Abort
                &&& s->Abort_0 == request_error(msg@)
                &&& final(self).phase == Phase::Aborted
            },
    {
        match self.phase {
            Phase::Greeting => match parse_greeting(msg) {
                Ok(_) => {
                    self.phase = Phase::Auth;
                    Step::Reply(greeting_reply())
                },
                Err(e) => {
                    self.phase = Phase::Aborted;
                    Step::Abort(e)
                },
            },
            Phase::Auth => match parse_auth(msg) {
                Ok(_) => {
                    self.phase = Phase::Request;
                    Step::Reply(auth_reply())
                },
                Err(e) => {
                    self.phase = Phase::Aborted;
                    Step::Abort(e)
                },
            },
            _ => match parse_request(msg) {
                Ok(d) => {
                    self.phase = Phase::Resolved;
                    Step::Connect(d, connect_reply())
                },
                Err(e) => {
                    self.phase = Phase::Aborted;
                    Step::Abort(e)
                },
            },
        }
    }
}

} // verus!
