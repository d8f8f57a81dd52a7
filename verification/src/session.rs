//! Decision logic of the client's non-blocking poll loop.
//!
//! One thread owns the socket and, per iteration, polls it for an inbound
//! frame, then polls the channel fed by the console thread for an outgoing
//! line, then sleeps for a fixed short interval. The callers perform the I/O
//! and hand the outcome of each poll to [`NetLoop`], which decides what to do
//! with it: what to print, what to transmit, when the loop is over, and which
//! failures are fatal.

use crate::codec::ChatMessage;
use crate::codec::DecodeError;
use crate::codec::EncodeError;
use crate::codec::FRAME_LEN;
use crate::codec::decode;
use crate::codec::encode;
use crate::codec::frame_bytes;
use crate::codec::frame_fields;
use crate::codec::msg_text;
use vstd::prelude::*;
use vstd::string::StringExecFns;
use vstd::utf8::encode_utf8;

verus! {

/// What a non-blocking socket read produced.
pub enum RxEvent {
    /// A full frame was read.
    Frame(Vec<u8>),
    /// No data is currently available (the read would block).
    NoData,
    /// The read failed with any other error: the transport is gone.
    Failed,
}

/// What a non-blocking receive on the console channel produced.
pub enum TxEvent {
    /// The operator typed a line; it is ready to send.
    Line(String),
    /// Nothing is pending right now.
    Empty,
    /// The sending side is gone: no more input will ever arrive.
    Disconnected,
}

/// What to do after an inbound poll.
pub enum InboundAction {
    /// Print this line on the console.
    Display(String),
    /// Nothing happened; go on with the iteration.
    Idle,
    /// The server stopped responding: print a diagnostic and abort with a
    /// non-zero exit status.
    FatalRead,
    /// An inbound frame did not decode: protocol corruption is surfaced
    /// loudly, aborting the process, rather than skipped.
    FatalDecode(DecodeError),
}

/// What to do after an outbound poll.
pub enum OutboundAction {
    /// Write this frame to the socket, blocking until it is written whole.
    Transmit(Vec<u8>),
    /// Nothing pending; go on with the iteration.
    Idle,
    /// The console thread ended: leave the loop without reporting an error.
    Finish,
    /// The message does not fit a frame. It is reported and dropped — never
    /// truncated — and the connection stays up: rejecting over-length
    /// content at encode time is this client's explicit design decision.
    Reject(EncodeError),
}

/// The two observable states of the network loop. The connection is made
/// synchronously before the loop starts, so there is no connecting state.
#[derive(Clone, Copy, Debug, PartialEq, Eq, Structural)]
pub enum LoopState {
    /// Steady state: both directions are being polled.
    Connected,
    /// Exit path: a fatal failure was seen or the input side ended.
    Terminated,
}

/// The console line a decoded message is shown as: `name: text`.
pub open spec fn display_of(name: Seq<char>, text: Seq<char>) -> Seq<char> {
    name + ": "@ + text
}

/// What `str::trim` leaves of a line: the whitespace at either end removed.
pub uninterp spec fn trimmed(s: Seq<char>) -> Seq<char>;

/// What `str::trim_end` leaves of a line: the trailing whitespace removed,
/// the rest untouched.
pub uninterp spec fn trimmed_end(s: Seq<char>) -> Seq<char>;

/// Relies on `str::trim` of std: it removes leading and trailing whitespace
/// and depends on the characters alone.
#[verifier::external_body]
fn trim_str(s: &str) -> (r: String)
    ensures
        r@ == trimmed(s@),
        r@.len() <= s@.len(),
{
    s.trim().to_owned()
}

/// Relies on `str::trim_end` of std: it removes trailing whitespace only
/// and depends on the characters alone.
#[verifier::external_body]
fn trim_end_str(s: &str) -> (r: String)
    ensures
        r@ == trimmed_end(s@),
        r@.len() <= s@.len(),
{
    s.trim_end().to_owned()
}

/// The display name read at startup, made ready for the loop: whitespace at
/// both ends is removed.
pub fn clean_name(line: &str) -> (r: String)
    ensures
        r@ == trimmed(line@),
{
    trim_str(line)
}

/// One operator-typed line made ready for the network loop: only the
/// trailing whitespace — the newline included — is removed; leading
/// whitespace belongs to the message and stays.
pub fn clean_line(line: &str) -> (r: String)
    ensures
        r@ == trimmed_end(line@),
{
    trim_end_str(line)
}

/// Format a decoded message for the console.
pub fn display_line(m: &ChatMessage) -> (r: String)
    ensures
        r@ == display_of(m.name@, m.text@),
{
    let mut s = m.name.clone();
    s.append(": ");
    s.append(m.text.as_str());
    proof {
        assert(s@ =~= display_of(m.name@, m.text@));
    }
    s
}

/// The decision core of the network loop: it holds this client's display
/// name and tracks whether the loop goes on.
pub struct NetLoop {
    /// The display name every outgoing message is attributed to.
    pub name: String,
    /// Whether the loop still runs.
    pub state: LoopState,
}

impl NetLoop {
    /// A loop for a client with this display name, in the steady state.
    pub fn new(name: String) -> (r: NetLoop)
        ensures
            r.name == name,
            r.state is Connected,
    {
        NetLoop { name, state: LoopState::Connected }
    }

    /// Decide on the outcome of the inbound poll. A full frame is decoded
    /// and shown as `name: text`; a would-block read changes nothing; any
    /// other read failure, and any decode failure, is fatal.
    pub fn on_inbound(&mut self, ev: RxEvent) -> (r: InboundAction)
        requires
            old(self).state is Connected,
        ensures
            final(self).name == old(self).name,
            match ev {
                RxEvent::Frame(f) => match frame_fields(f@) {
                    Some(p) => r matches InboundAction::Display(line) && line@ == display_of(
                        p.0,
                        p.1,
                    ) && final(self).state is Connected,
                    None => r is FatalDecode && final(self).state is Terminated,
                },
                RxEvent::NoData => r is Idle && final(self).state == old(self).state,
                RxEvent::Failed => r is FatalRead && final(self).state is Terminated,
            },
    {
        match ev {
            RxEvent::Frame(f) => match decode(&f) {
                Ok(m) => InboundAction::Display(display_line(&m)),
                Err(e) => {
                    self.state = LoopState::Terminated;
                    InboundAction::FatalDecode(e)
                },
            },
            RxEvent::NoData => InboundAction::Idle,
            RxEvent::Failed => {
                self.state = LoopState::Terminated;
                InboundAction::FatalRead
            },
        }
    }

    /// Decide on the outcome of the outbound poll. A pending line becomes a
    /// frame carrying it under this client's name; an empty channel changes
    /// nothing; a dropped sender ends the loop without an error.
    pub fn on_outbound(&mut self, ev: TxEvent) -> (r: OutboundAction)
        requires
            old(self).state is Connected,
        ensures
            final(self).name == old(self).name,
            match ev {
                TxEvent::Line(text) => final(self).state is Connected && ({
                    let jb = encode_utf8(msg_text(old(self).name@, text@));
                    if jb.len() < FRAME_LEN {
                        r matches OutboundAction::Transmit(f) && f@ == frame_bytes(
                            old(self).name@,
                            text@,
                        )
                    } else {
                        r matches OutboundAction::Reject(e) && e is Oversize
                    }
                }),
                TxEvent::Empty => r is Idle && final(self).state == old(self).state,
                TxEvent::Disconnected => r is Finish && final(self).state is Terminated,
            },
    {
        match ev {
            TxEvent::Line(text) => {
                let m = ChatMessage { name: self.name.clone(), text };
                match encode(&m) {
                    Ok(f) => OutboundAction::Transmit(f),
                    Err(e) => OutboundAction::Reject(e),
                }
            },
            TxEvent::Empty => OutboundAction::Idle,
            TxEvent::Disconnected => {
                self.state = LoopState::Terminated;
                OutboundAction::Finish
            },
        }
    }
}

} // verus!
