//! The connection daemon's per-connection decision core.
//!
//! Each accepted client runs one handler: a state machine that, while open,
//! takes frames in order, decodes each with the protocol codec, and asks for
//! at most one engine call per frame. Requests on one connection are strictly
//! sequential; concurrency exists only across connections, which share no
//! mutable state. The unverified shell owns the listener and the stream; it
//! feeds events in and performs the engine calls and replies this module
//! decides on.

use vstd::prelude::*;
use crate::protocol::{Action, action_of_tag, decode_request, wire_fields};
use crate::engine::EngineError;

verus! {

/// Where one connection stands. A handler starts `Open` once the transport
/// is upgraded and never leaves a closed state.
#[derive(PartialEq, Eq, Structural, Clone, Copy, Debug)]
pub enum ConnState {
    Open,
    /// The client ended the stream.
    ClosedNormal,
    /// Sending or receiving failed; only this connection is torn down.
    ClosedError,
}

/// One event a connection handler observes.
pub enum ConnEvent {
    /// A text frame arrived.
    TextFrame(String),
    /// A non-text frame arrived; it is ignored.
    OtherFrame,
    /// The client ended the stream.
    StreamEnd,
    /// Receiving or sending failed.
    TransportError,
}

/// The engine call one frame asks for, with the markup to pipe to it.
pub enum EngineCall {
    /// Render the markup as spoken text and reply with the result.
    Translate(String),
    /// Show the markup on screen; no reply is owed.
    Show(String),
}

/// What a text frame dispatches to: the decoded action and content, or
/// `None` for a malformed frame, which is dropped silently.
pub open spec fn frame_dispatch(s: Seq<char>) -> Option<(Action, Seq<char>)> {
    match wire_fields(s) {
        Some(f) => Some((action_of_tag(f.0), f.1)),
        None => None,
    }
}

/// The state one step leaves the connection in. Frames of every shape keep
/// it open; end of input closes it normally, a transport failure closes it
/// with an error, and a closed connection never moves again.
pub open spec fn next_state(state: ConnState, event: ConnEvent) -> ConnState {
    if state != ConnState::Open {
        state
    } else {
        match event {
            ConnEvent::TextFrame(_) => ConnState::Open,
            ConnEvent::OtherFrame => ConnState::Open,
            ConnEvent::StreamEnd => ConnState::ClosedNormal,
            ConnEvent::TransportError => ConnState::ClosedError,
        }
    }
}

/// The engine call one step asks for: the dispatch of a text frame received
/// while open, unless its action is unrecognized. Everything else — a
/// malformed frame, a non-text frame, the end of the stream, any event on a
/// closed connection — asks for nothing.
pub open spec fn step_call(state: ConnState, event: ConnEvent) -> Option<(Action, Seq<char>)> {
    if state != ConnState::Open {
        None
    } else {
        match event {
            ConnEvent::TextFrame(text) => match frame_dispatch(text@) {
                Some(d) => if d.0 == Action::Unknown {
                    None
                } else {
                    Some(d)
                },
                None => None,
            },
            _ => None,
        }
    }
}

/// One step of the per-connection state machine: the next state and the
/// engine call the event asks for, exactly as `next_state` and `step_call`
/// describe them. A translate frame asks for a translate call, a show frame
/// for a show call, and the call carries the frame's content untouched.
pub fn conn_step(state: ConnState, event: ConnEvent) -> (r: (ConnState, Option<EngineCall>))
    ensures
        r.0 == next_state(state, event),
        match r.1 {
            Some(EngineCall::Translate(c)) => step_call(state, event) == Some(
                (Action::Translate, c@),
            ),
            Some(EngineCall::Show(c)) => step_call(state, event) == Some((Action::Show, c@)),
            None => step_call(state, event) is None,
        },
{
    match state {
        ConnState::Open => match event {
            ConnEvent::TextFrame(text) => {
                let call = match decode_request(text.as_str()) {
                    Some(req) => match req.action {
                        Action::Translate => Some(EngineCall::Translate(req.content)),
                        Action::Show => Some(EngineCall::Show(req.content)),
                        Action::Unknown => None,
                    },
                    None => None,
                };
                (ConnState::Open, call)
            },
            ConnEvent::OtherFrame => (ConnState::Open, None),
            ConnEvent::StreamEnd => (ConnState::ClosedNormal, None),
            ConnEvent::TransportError => (ConnState::ClosedError, None),
        },
        _ => (state, None),
    }
}

/// A malformed frame is dropped silently and transparently: it asks for no
/// engine call, the connection stays open, and the step after it is decided
/// exactly as if the malformed frame had never arrived.
pub proof fn lemma_malformed_frame_transparent(bad: ConnEvent, next: ConnEvent)
    requires
        bad matches ConnEvent::TextFrame(s) && wire_fields(s@) is None,
    ensures
        next_state(ConnState::Open, bad) == ConnState::Open,
        step_call(ConnState::Open, bad) is None,
        next_state(next_state(ConnState::Open, bad), next) == next_state(ConnState::Open, next),
        step_call(next_state(ConnState::Open, bad), next) == step_call(ConnState::Open, next),
{
}

/// The reply owed for a translate request, given the invocation's outcome:
/// the engine's text exactly as the one reply frame, or no reply at all
/// when the invocation failed (the failure is logged and swallowed).
pub fn translate_reply(outcome: Result<String, EngineError>) -> (r: Option<String>)
    ensures
        outcome matches Ok(text) ==> (r matches Some(t) && t@ == text@),
        outcome is Err ==> r is None,
{
    match outcome {
        Ok(text) => Some(text),
        Err(_) => None,
    }
}

} // verus!
