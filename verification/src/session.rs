//! The connection session: a state machine that maps each event on one
//! duplex connection to the action the connection loop takes next. Frames
//! are handled one at a time and in order; the only state that outlives a
//! message is whether the connection is still open.

use vstd::prelude::*;
use crate::detection::{spec_encode, encode_detections, lemma_encode_empty, Detection,
    DetectionView};
use crate::frame::{decode, spec_decode, FrameView, InboundFrame};
use crate::provider::{InferenceOutcome, OutcomeView};

verus! {

/// Whether the session still reads from its connection.
#[derive(Clone, Copy, PartialEq, Eq, Structural, Debug)]
pub enum SessionState {
    Open,
    Closed,
}

/// One thing that happened on the connection.
pub enum SessionEvent {
    /// A text message arrived.
    Message(String),
    /// The stream ended or receiving failed.
    ReceiveFailed,
    /// A reply could not be written back.
    SendFailed,
}

/// The mathematical model of a session event.
pub ghost enum EventView {
    Message(Seq<char>),
    ReceiveFailed,
    SendFailed,
}

impl View for SessionEvent {
    type V = EventView;

    open spec fn view(&self) -> EventView {
        match self {
            SessionEvent::Message(m) => EventView::Message(m@),
            SessionEvent::ReceiveFailed => EventView::ReceiveFailed,
            SessionEvent::SendFailed => EventView::SendFailed,
        }
    }
}

/// What the connection loop must do next.
pub enum SessionAction {
    /// Write this text back to the peer.
    Reply(String),
    /// Run the inference call on this payload, then reply with
    /// `inference_reply` of its outcome.
    Infer(String),
    /// Do nothing and keep reading.
    Continue,
    /// Release the connection.
    Close,
}

/// The mathematical model of a session action.
pub ghost enum ActionView {
    Reply(Seq<char>),
    Infer(Seq<char>),
    Continue,
    Close,
}

impl View for SessionAction {
    type V = ActionView;

    open spec fn view(&self) -> ActionView {
        match self {
            SessionAction::Reply(m) => ActionView::Reply(m@),
            SessionAction::Infer(p) => ActionView::Infer(p@),
            SessionAction::Continue => ActionView::Continue,
            SessionAction::Close => ActionView::Close,
        }
    }
}

/// What one step of the session does: a closed session stays closed; a
/// receive or send failure closes it; a ping is answered with `pong`; an
/// image frame starts an inference call; an unrecognized frame is silently
/// ignored and the loop keeps reading.
pub open spec fn spec_step(st: SessionState, ev: EventView) -> (SessionState, ActionView) {
    if st is Closed {
        (SessionState::Closed, ActionView::Close)
    } else {
        match ev {
            EventView::ReceiveFailed => (SessionState::Closed, ActionView::Close),
            EventView::SendFailed => (SessionState::Closed, ActionView::Close),
            EventView::Message(m) => match spec_decode(m) {
                FrameView::Ping => (SessionState::Open, ActionView::Reply("pong"@)),
                FrameView::ImageData(p) => (SessionState::Open, ActionView::Infer(p)),
                FrameView::Unknown(_) => (SessionState::Open, ActionView::Continue),
            },
        }
    }
}

/// Advances the session by one event.
pub fn session_step(st: SessionState, ev: SessionEvent) -> (r: (SessionState, SessionAction))
    ensures
        r.0 == spec_step(st, ev@).0,
        r.1@ == spec_step(st, ev@).1,
{
    if st == SessionState::Closed {
        return (SessionState::Closed, SessionAction::Close);
    }
    match ev {
        SessionEvent::ReceiveFailed => (SessionState::Closed, SessionAction::Close),
        SessionEvent::SendFailed => (SessionState::Closed, SessionAction::Close),
        SessionEvent::Message(m) => match decode(m.as_str()) {
            InboundFrame::Ping => (
                SessionState::Open,
                SessionAction::Reply(crate::frame::encode_pong()),
            ),
            InboundFrame::ImageData(p) => (SessionState::Open, SessionAction::Infer(p)),
            InboundFrame::Unknown(_) => (SessionState::Open, SessionAction::Continue),
        },
    }
}

/// The reply the client sees for an inference outcome: the encoded
/// detections on success, the encoding of the empty list on failure — the
/// failure kind never reaches the client.
pub open spec fn spec_inference_reply(o: OutcomeView) -> Seq<char> {
    match o {
        OutcomeView::Success(ds) => spec_encode(ds),
        OutcomeView::Failure(_) => spec_encode(Seq::empty()),
    }
}

/// Encodes the reply for an inference outcome.
pub fn inference_reply(outcome: &InferenceOutcome) -> (r: String)
    ensures
        r@ == spec_inference_reply(outcome@),
{
    match outcome {
        InferenceOutcome::Success(ds) => encode_detections(ds),
        InferenceOutcome::Failure(_) => {
            let none: Vec<Detection> = Vec::new();
            proof {
                assert(none.deep_view() =~= Seq::<DetectionView>::empty());
            }
            encode_detections(&none)
        },
    }
}

/// A closed session is terminal: no event reopens it, and the loop is told
/// to stay off the connection.
pub proof fn lemma_closed_terminal(ev: EventView)
    ensures
        spec_step(SessionState::Closed, ev) == (SessionState::Closed, ActionView::Close),
{
}

/// An open session answers the exact message `ping` with the exact reply
/// `pong`, and stays open for further frames.
pub proof fn lemma_ping_pong()
    ensures
        spec_step(SessionState::Open, EventView::Message("ping"@))
            == (SessionState::Open, ActionView::Reply("pong"@)),
{
}

/// No message ever closes an open session — pings, image frames and
/// unrecognized frames alike leave it reading; only a receive or send
/// failure closes it.
pub proof fn lemma_message_keeps_open(m: Seq<char>)
    ensures
        spec_step(SessionState::Open, EventView::Message(m)).0 == SessionState::Open,
{
}

/// Every failed inference call is answered with the literal `[]`, so the
/// connection stays usable and the failure kind stays on the server.
pub proof fn lemma_failure_reply_is_empty_list(o: OutcomeView)
    requires
        o is Failure,
    ensures
        spec_inference_reply(o) == "[]"@,
{
    lemma_encode_empty();
}

} // verus!
