//! The WebSocket session with zwave-js-server as a pair of state machines.
//!
//! The handshake waits for the server's version announcement, sets the API
//! schema, then starts listening and hands back the initial node documents.
//! The event loop that follows handles text frames, forwards commands from
//! HomeCore, and ends on a closed or failed connection.
//!
//! The program around this library reads each frame, hands its kind (and,
//! for a text frame, the message parsed from it) to a step function here,
//! and performs the action that comes back.

use vstd::prelude::*;
use crate::bridge::{
    ResultDecision, init_message_id, listen_message_id, listening_nodes, listening_nodes_spec,
    negotiate_schema, result_decision, result_decision_spec, set_api_schema_document,
    set_api_schema_message, start_listening_document, start_listening_message,
};
use crate::json::{JsonValue, JsonView, items_view};
use crate::types::{ServerMsg, opt_json_view};

verus! {

/// The kind of a frame read from the WebSocket.
#[derive(Clone, Copy, Debug, PartialEq, Eq, Structural)]
pub enum FrameKind {
    /// A text frame: a JSON message of the server.
    Text,
    /// A ping.
    Ping,
    /// A close frame.
    Close,
    /// Any other frame (binary, pong).
    Other,
    /// The read failed.
    Error,
    /// The stream ended.
    End,
}

/// Why the session ends with an error.
#[derive(Clone, Copy, Debug, PartialEq, Eq, Structural)]
pub enum SessionError {
    /// A text frame that is no message of the server.
    Unparsable,
    /// The server answered a command with a failure.
    CommandFailed,
    /// The server sent a close frame.
    ClosedByServer,
    /// Reading from the socket failed.
    ReadFailed,
    /// The stream ended.
    StreamEnded,
}

// ---------------------------------------------------------------------------
// Handshake
// ---------------------------------------------------------------------------

/// Where the handshake stands.
#[derive(Clone, Copy, Debug, PartialEq, Eq, Structural)]
pub enum HandshakePhase {
    /// Waiting for the server's version announcement.
    AwaitVersion,
    /// `set_api_schema` with this schema version was sent; waiting for its
    /// result.
    AwaitSchemaResult(u32),
    /// `start_listening` was sent; waiting for its result.
    AwaitListenResult,
    /// The handshake is over.
    Done,
}

/// What to do after a frame of the handshake.
pub enum HandshakeAction {
    /// Read the next frame.
    Wait,
    /// Send this command, then read the next frame.
    Send(JsonValue),
    /// The handshake succeeded with these node documents.
    Finish(Vec<JsonValue>),
    /// The handshake failed.
    Fail(SessionError),
}

pub enum HandshakeActionView {
    Wait,
    Send(JsonView),
    Finish(Seq<JsonView>),
    Fail(SessionError),
}

impl View for HandshakeAction {
    type V = HandshakeActionView;

    open spec fn view(&self) -> HandshakeActionView {
        match self {
            HandshakeAction::Wait => HandshakeActionView::Wait,
            HandshakeAction::Send(doc) => HandshakeActionView::Send(doc@),
            HandshakeAction::Finish(nodes) => HandshakeActionView::Finish(items_view(nodes@)),
            HandshakeAction::Fail(e) => HandshakeActionView::Fail(*e),
        }
    }
}

/// The schema version asked for, clamped to the server's range.
pub open spec fn negotiated_schema(requested: u32, min: u32, max: u32) -> u32 {
    if requested < min { min } else if requested > max { max } else { requested }
}

/// Whether a frame can be handed to [`handshake_step`] in `phase`: a
/// version announcement must give a non-empty schema range.
pub open spec fn handshake_frame_ok(phase: HandshakePhase, kind: FrameKind, msg: Option<&ServerMsg>) -> bool {
    (phase == HandshakePhase::AwaitVersion && kind == FrameKind::Text) ==> match msg {
        Some(ServerMsg::Version(v)) => v.min_schema_version <= v.max_schema_version,
        _ => true,
    }
}

/// The handshake's answer to a text frame holding `msg` in `phase`.
pub open spec fn handshake_message_spec(phase: HandshakePhase, schema_version: u32, msg: ServerMsg) -> (
    HandshakePhase,
    HandshakeActionView,
) {
    match phase {
        HandshakePhase::AwaitVersion => match msg {
            ServerMsg::Version(v) => {
                let n = negotiated_schema(schema_version, v.min_schema_version, v.max_schema_version);
                (HandshakePhase::AwaitSchemaResult(n), HandshakeActionView::Send(set_api_schema_document(n)))
            },
            _ => (phase, HandshakeActionView::Wait),
        },
        HandshakePhase::AwaitSchemaResult(_) => match result_decision_spec(msg, "hc-zwave-init"@) {
            ResultDecision::Wait => (phase, HandshakeActionView::Wait),
            ResultDecision::Accept => (
                HandshakePhase::AwaitListenResult,
                HandshakeActionView::Send(start_listening_document()),
            ),
            ResultDecision::Fail => (phase, HandshakeActionView::Fail(SessionError::CommandFailed)),
        },
        HandshakePhase::AwaitListenResult => match result_decision_spec(msg, "hc-zwave-listen"@) {
            ResultDecision::Wait => (phase, HandshakeActionView::Wait),
            ResultDecision::Accept => (
                HandshakePhase::Done,
                HandshakeActionView::Finish(listening_nodes_spec(opt_json_view(msg->Result_0.result))),
            ),
            ResultDecision::Fail => (phase, HandshakeActionView::Fail(SessionError::CommandFailed)),
        },
        HandshakePhase::Done => (phase, HandshakeActionView::Wait),
    }
}

/// One step of the handshake: the next phase and the action for a frame of
/// kind `kind`, with `msg` the message parsed from a text frame (`None`
/// where it is none).  A text frame that does not parse, a failed read and
/// the end of the stream fail the handshake; pings, close frames and other
/// frames are passed over; once done, the handshake stays done.
pub open spec fn handshake_step_spec(
    phase: HandshakePhase,
    schema_version: u32,
    kind: FrameKind,
    msg: Option<ServerMsg>,
) -> (HandshakePhase, HandshakeActionView) {
    if phase == HandshakePhase::Done {
        (phase, HandshakeActionView::Wait)
    } else {
        match kind {
            FrameKind::Text => match msg {
                Some(m) => handshake_message_spec(phase, schema_version, m),
                None => (phase, HandshakeActionView::Fail(SessionError::Unparsable)),
            },
            FrameKind::Error => (phase, HandshakeActionView::Fail(SessionError::ReadFailed)),
            FrameKind::End => (phase, HandshakeActionView::Fail(SessionError::StreamEnded)),
            _ => (phase, HandshakeActionView::Wait),
        }
    }
}

/// How far a handshake has come: 0 to 3.
pub open spec fn phase_rank(phase: HandshakePhase) -> nat {
    match phase {
        HandshakePhase::AwaitVersion => 0,
        HandshakePhase::AwaitSchemaResult(_) => 1,
        HandshakePhase::AwaitListenResult => 2,
        HandshakePhase::Done => 3,
    }
}

/// Whether a parsed frame is a version announcement.
pub open spec fn is_version(msg: Option<ServerMsg>) -> bool {
    msg matches Some(ServerMsg::Version(_))
}

/// Whether a parsed frame is the successful result of command `id`.
pub open spec fn is_success_result(msg: Option<ServerMsg>, id: Seq<char>) -> bool {
    match msg {
        Some(ServerMsg::Result(r)) => r.message_id@ == id && r.success,
        _ => false,
    }
}

/// The handshake runs in order, one step at a time: a frame never sends it
/// back, it moves on by exactly one phase when and only when a command is
/// sent or the node documents are handed back, and it is done exactly
/// when they are.  So `set_api_schema` goes out only after the version
/// announcement, `start_listening` only after `set_api_schema` succeeded,
/// and the nodes come only from a successful `start_listening`.
pub proof fn lemma_handshake_in_order(
    phase: HandshakePhase,
    schema_version: u32,
    kind: FrameKind,
    msg: Option<ServerMsg>,
)
    ensures
        ({
            let (next, action) = handshake_step_spec(phase, schema_version, kind, msg);
            &&& phase_rank(next) >= phase_rank(phase)
            &&& (phase_rank(next) == phase_rank(phase) + 1 <==> (action is Send || action is Finish))
            &&& (phase_rank(next) != phase_rank(phase) + 1 ==> next == phase)
            &&& (action is Send && phase == HandshakePhase::AwaitVersion) ==> kind == FrameKind::Text
                && is_version(msg)
            &&& (action is Send && phase is AwaitSchemaResult) ==> kind == FrameKind::Text
                && is_success_result(msg, "hc-zwave-init"@)
            &&& (action is Finish <==> (phase == HandshakePhase::AwaitListenResult && next
                == HandshakePhase::Done))
            &&& action is Finish ==> kind == FrameKind::Text && is_success_result(msg, "hc-zwave-listen"@)
        }),
{
}

/// The view of an optional borrowed message.
pub open spec fn opt_msg(msg: Option<&ServerMsg>) -> Option<ServerMsg> {
    match msg {
        Some(m) => Some(*m),
        None => None,
    }
}

/// Takes one step of the handshake.
pub fn handshake_step(phase: HandshakePhase, schema_version: u32, kind: FrameKind, msg: Option<&ServerMsg>) -> (r: (
    HandshakePhase,
    HandshakeAction,
))
    requires
        handshake_frame_ok(phase, kind, msg),
    ensures
        r.0 == handshake_step_spec(phase, schema_version, kind, opt_msg(msg)).0,
        r.1@ == handshake_step_spec(phase, schema_version, kind, opt_msg(msg)).1,
{
    if phase == HandshakePhase::Done {
        return (phase, HandshakeAction::Wait);
    }
    match kind {
        FrameKind::Text => match msg {
            None => (phase, HandshakeAction::Fail(SessionError::Unparsable)),
            Some(m) => match phase {
                HandshakePhase::AwaitVersion => match m {
                    ServerMsg::Version(v) => {
                        let n = negotiate_schema(schema_version, v.min_schema_version, v.max_schema_version);
                        (HandshakePhase::AwaitSchemaResult(n), HandshakeAction::Send(set_api_schema_message(n)))
                    },
                    _ => (phase, HandshakeAction::Wait),
                },
                HandshakePhase::AwaitSchemaResult(_) => match result_decision(m, init_message_id()) {
                    ResultDecision::Wait => (phase, HandshakeAction::Wait),
                    ResultDecision::Accept => (
                        HandshakePhase::AwaitListenResult,
                        HandshakeAction::Send(start_listening_message()),
                    ),
                    ResultDecision::Fail => (phase, HandshakeAction::Fail(SessionError::CommandFailed)),
                },
                HandshakePhase::AwaitListenResult => match result_decision(m, listen_message_id()) {
                    ResultDecision::Wait => (phase, HandshakeAction::Wait),
                    ResultDecision::Accept => match m {
                        ServerMsg::Result(res) => (HandshakePhase::Done, HandshakeAction::Finish(listening_nodes(res))),
                        _ => (phase, HandshakeAction::Wait),
                    },
                    ResultDecision::Fail => (phase, HandshakeAction::Fail(SessionError::CommandFailed)),
                },
                HandshakePhase::Done => (phase, HandshakeAction::Wait),
            },
        },
        FrameKind::Error => (phase, HandshakeAction::Fail(SessionError::ReadFailed)),
        FrameKind::End => (phase, HandshakeAction::Fail(SessionError::StreamEnded)),
        _ => (phase, HandshakeAction::Wait),
    }
}

// ---------------------------------------------------------------------------
// Event loop
// ---------------------------------------------------------------------------

/// What the event loop received: a frame from the server, or from the
/// command channel a command or the news that every sender is gone.
#[derive(Clone, Copy, Debug, PartialEq, Eq, Structural)]
pub enum LoopEvent {
    Frame(FrameKind),
    Command,
    CommandsClosed,
}

/// What the event loop does with what it received.
#[derive(Clone, Copy, Debug, PartialEq, Eq, Structural)]
pub enum LoopAction {
    /// Handle the text frame as a message of the server.
    HandleText,
    /// Send the command to the server as `node.set_value`.
    SendCommand,
    /// Nothing; go on.
    Ignore,
    /// End the loop cleanly.
    Stop,
    /// End the loop with this error.
    Fail(SessionError),
}

/// The event loop's decision: text frames are handled, pings and other
/// frames passed over; a close frame, a failed read or the end of the
/// stream end it with an error; commands are sent, and the loop ends
/// cleanly once the command channel is closed.
pub open spec fn loop_step_spec(ev: LoopEvent) -> LoopAction {
    match ev {
        LoopEvent::Frame(FrameKind::Text) => LoopAction::HandleText,
        LoopEvent::Frame(FrameKind::Close) => LoopAction::Fail(SessionError::ClosedByServer),
        LoopEvent::Frame(FrameKind::Error) => LoopAction::Fail(SessionError::ReadFailed),
        LoopEvent::Frame(FrameKind::End) => LoopAction::Fail(SessionError::StreamEnded),
        LoopEvent::Frame(_) => LoopAction::Ignore,
        LoopEvent::Command => LoopAction::SendCommand,
        LoopEvent::CommandsClosed => LoopAction::Stop,
    }
}

/// Decides what the event loop does with what it received.
pub fn loop_step(ev: LoopEvent) -> (r: LoopAction)
    ensures
        r == loop_step_spec(ev),
{
    match ev {
        LoopEvent::Frame(FrameKind::Text) => LoopAction::HandleText,
        LoopEvent::Frame(FrameKind::Close) => LoopAction::Fail(SessionError::ClosedByServer),
        LoopEvent::Frame(FrameKind::Error) => LoopAction::Fail(SessionError::ReadFailed),
        LoopEvent::Frame(FrameKind::End) => LoopAction::Fail(SessionError::StreamEnded),
        LoopEvent::Frame(_) => LoopAction::Ignore,
        LoopEvent::Command => LoopAction::SendCommand,
        LoopEvent::CommandsClosed => LoopAction::Stop,
    }
}

} // verus!
