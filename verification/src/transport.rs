//! The session transport automaton.  It sits between a framed stream of
//! messages and the caller: keep-alive probes are answered and swallowed,
//! every other frame is forwarded untouched, and a connection silent for
//! too long is failed and closed for good.
//!
//! The automaton is pure: the host hands it the current time, in seconds
//! of a monotonic clock, and the frames the stream yields, and performs
//! the actions it returns.  Per inbound poll the host first calls
//! `begin_poll`; on success it reads a frame and calls `process_frame`,
//! sends the returned reply if there is one, and repeats until a frame is
//! forwarded.

use vstd::prelude::*;

use crate::error::Error;
use crate::message::Message;
use crate::parser::{spec_parse, ParseOut};
use crate::text::str_eq;

verus! {

/// Seconds of inbound silence after which the connection is failed.
pub const PING_TIMEOUT_IN_SECONDS: u64 = 600;

/// What the automaton decides about one inbound frame.
#[derive(Debug)]
pub enum FrameOutcome {
    /// The frame was a keep-alive probe with a host: it is not forwarded,
    /// and the carried reply must be sent and flushed before reading on.
    Reply(Message),
    /// The frame was a keep-alive probe without arguments: it is not
    /// forwarded and nothing is sent.
    Swallowed,
    /// Any other frame: it is handed to the caller unchanged.
    Forward(Message),
}

/// The keep-alive state of one session: when the last probe arrived and
/// whether the session has been closed for good.
pub struct IrcTransport {
    last_ping: u64,
    closed: bool,
}

impl IrcTransport {
    /// When the last keep-alive probe arrived, in seconds.
    pub closed spec fn last_ping(&self) -> u64 {
        self.last_ping
    }

    /// Whether the session has been closed; a closed session produces no
    /// further frames.
    pub closed spec fn is_closed(&self) -> bool {
        self.closed
    }

    /// A fresh transport over a stream established at time `now`.
    pub fn new(now: u64) -> (r: IrcTransport)
        ensures
            r.last_ping() == now,
            !r.is_closed(),
    {
        IrcTransport { last_ping: now, closed: false }
    }

    /// The timeout check at the start of one inbound poll: a session that
    /// is closed, or has seen no keep-alive probe for the timeout span,
    /// fails with `ConnectionReset` and is closed for good; otherwise the
    /// state is untouched and the host may read the next frame.
    pub fn begin_poll(&mut self, now: u64) -> (r: Result<(), Error>)
        requires
            old(self).last_ping() <= now,
        ensures
            final(self).last_ping() == old(self).last_ping(),
            r is Ok <==> (!old(self).is_closed() && now - old(self).last_ping()
                < PING_TIMEOUT_IN_SECONDS),
            r is Ok ==> !final(self).is_closed(),
            r is Err ==> final(self).is_closed() && r matches Err(Error::ConnectionReset),
    {
        if self.closed || now - self.last_ping >= PING_TIMEOUT_IN_SECONDS {
            self.closed = true;
            Err(Error::ConnectionReset)
        } else {
            Ok(())
        }
    }

    /// The decision about one inbound frame, read at time `now`.  A frame
    /// whose command token is `PING` refreshes the keep-alive clock and is
    /// swallowed; when it carries at least one argument, the reply
    /// `PONG <host>` is built for its first argument and must be sent
    /// before reading on, and a failure to build that reply is the
    /// session's failure.  Every other frame leaves the state untouched
    /// and is forwarded unchanged.
    pub fn process_frame(&mut self, now: u64, frame: Message) -> (r: Result<FrameOutcome, Error>)
        requires
            frame.wf(),
            !old(self).is_closed(),
        ensures
            !final(self).is_closed(),
            frame.cmd_text() != "PING"@ ==> (final(self).last_ping() == old(self).last_ping() && (
            r matches Ok(o) && o matches FrameOutcome::Forward(m) && m == frame)),
            frame.cmd_text() == "PING"@ ==> final(self).last_ping() == now,
            frame.cmd_text() == "PING"@ && frame.args_texts().len() == 0 ==> (r matches Ok(o)
                && o matches FrameOutcome::Swallowed),
            frame.cmd_text() == "PING"@ && frame.args_texts().len() > 0 ==> ({
                let text = "PONG "@ + frame.args_texts()[0];
                match spec_parse(text) {
                    ParseOut::Parsed(shape) => r matches Ok(o) && o matches FrameOutcome::Reply(m)
                        && m.message@ == text && m.shape() == shape && m.wf(),
                    _ => r matches Err(e) && crate::parser::parse_result_matches(
                        text,
                        Err::<Message, Error>(e),
                    ),
                }
            }),
    {
        if str_eq(frame.raw_command(), "PING") {
            self.last_ping = now;
            let mut args = frame.raw_args();
            match args.next() {
                None => Ok(FrameOutcome::Swallowed),
                Some(host) => match Message::pong(host.as_str()) {
                    Ok(reply) => Ok(FrameOutcome::Reply(reply)),
                    Err(e) => Err(e),
                },
            }
        } else {
            Ok(FrameOutcome::Forward(frame))
        }
    }
}

} // verus!
