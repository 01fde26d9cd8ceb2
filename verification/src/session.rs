//! The streaming echo session: a per-connection state machine that echoes
//! Text and Binary frames until the peer closes or an I/O failure ends the
//! session, logging an established/closed pair around the frame traffic.
//!
//! Policy choices this module makes, documented here because the behaviour
//! they replace was underspecified: frames with opcodes other than Text,
//! Binary and Close (ping, pong, continuations) are ignored without a
//! transition; and a Text frame whose payload is not valid UTF-8 ends the
//! session gracefully with a protocol-error close instead of tearing the
//! whole unit of work down.

use vstd::prelude::*;

use crate::logging::{
    ws_event, ws_events_model, ContextModel, WsLogEvent, WsLogEventModel, WsLogKindModel, WsLogger,
};
use crate::message::copy_bytes;

verus! {

/// The opcode of a streaming frame, as the session cares about it.
#[derive(Clone, Copy, Debug, PartialEq, Eq, Structural)]
pub enum OpCode {
    Text,
    Binary,
    Close,
    /// Any other opcode: ignored by the echo loop.
    Other,
}

/// One frame on the upgraded channel.
pub struct Frame {
    /// Whether the frame is a final fragment.
    pub fin: bool,
    pub opcode: OpCode,
    pub payload: Vec<u8>,
}

/// Model of a frame.
#[verifier::ext_equal]
pub struct FrameModel {
    pub fin: bool,
    pub opcode: OpCode,
    pub payload: Seq<u8>,
}

impl View for Frame {
    type V = FrameModel;

    open spec fn view(&self) -> FrameModel {
        FrameModel { fin: self.fin, opcode: self.opcode, payload: self.payload@ }
    }
}

/// What the session observes, one observation per step.
pub enum SessionEvent {
    /// A frame arrived.
    Frame(Frame),
    /// Reading the next frame failed, the peer disconnecting included.
    ReadFailure,
    /// Writing the previous echo failed.
    WriteFailure,
}

/// Model of an observation.
#[verifier::ext_equal]
pub enum EventModel {
    Frame(FrameModel),
    ReadFailure,
    WriteFailure,
}

impl View for SessionEvent {
    type V = EventModel;

    open spec fn view(&self) -> EventModel {
        match self {
            SessionEvent::Frame(f) => EventModel::Frame(f@),
            SessionEvent::ReadFailure => EventModel::ReadFailure,
            SessionEvent::WriteFailure => EventModel::WriteFailure,
        }
    }
}

/// Model of an observation list.
pub open spec fn session_events_model(evs: Seq<SessionEvent>) -> Seq<EventModel> {
    evs.map_values(|e: SessionEvent| e@)
}

/// The session's state: created Open on a successful handshake, Closed
/// when the loop exits, and never resurrected.
#[derive(Clone, Copy, Debug, PartialEq, Eq, Structural)]
pub enum SessionState {
    Open,
    Closed,
}

/// What the caller must do after one step.
pub enum StepAction {
    /// Write this frame back to the peer.
    Echo(Frame),
    /// Send a protocol-error close frame: a Text frame carried bytes that
    /// are not valid text.
    CloseProtocolError,
    /// Nothing to write.
    Ignore,
}

/// Model of a step's action.
#[verifier::ext_equal]
pub enum StepActionModel {
    Echo(FrameModel),
    CloseProtocolError,
    Ignore,
}

impl View for StepAction {
    type V = StepActionModel;

    open spec fn view(&self) -> StepActionModel {
        match self {
            StepAction::Echo(f) => StepActionModel::Echo(f@),
            StepAction::CloseProtocolError => StepActionModel::CloseProtocolError,
            StepAction::Ignore => StepActionModel::Ignore,
        }
    }
}

/// The echo of a frame: a final fragment with the same opcode and the
/// same payload bytes.
pub open spec fn echo_frame(f: FrameModel) -> FrameModel {
    FrameModel { fin: true, opcode: f.opcode, payload: f.payload }
}

/// One transition of the state machine. A Closed session stays Closed and
/// does nothing; an Open one echoes Text and Binary frames, closes on a
/// Close frame or either I/O failure, answers a non-text Text payload with
/// a protocol-error close, and ignores every other opcode.
pub open spec fn spec_step(state: SessionState, ev: EventModel) -> (SessionState, StepActionModel) {
    if state == SessionState::Closed {
        (SessionState::Closed, StepActionModel::Ignore)
    } else {
        match ev {
            EventModel::Frame(f) => match f.opcode {
                OpCode::Text => if vstd::utf8::valid_utf8(f.payload) {
                    (SessionState::Open, StepActionModel::Echo(echo_frame(f)))
                } else {
                    (SessionState::Closed, StepActionModel::CloseProtocolError)
                },
                OpCode::Binary => (SessionState::Open, StepActionModel::Echo(echo_frame(f))),
                OpCode::Close => (SessionState::Closed, StepActionModel::Ignore),
                OpCode::Other => (SessionState::Open, StepActionModel::Ignore),
            },
            EventModel::ReadFailure => (SessionState::Closed, StepActionModel::Ignore),
            EventModel::WriteFailure => (SessionState::Closed, StepActionModel::Ignore),
        }
    }
}

/// Relies on core::str::from_utf8: it accepts exactly the byte strings
/// that vstd's valid_utf8 describes.
#[verifier::external_body]
fn utf8_check(b: &[u8]) -> (r: bool)
    ensures
        r == vstd::utf8::valid_utf8(b@),
{
    core::str::from_utf8(b).is_ok()
}

/// Takes one step of the state machine on one observation.
pub fn session_step(state: SessionState, ev: &SessionEvent) -> (r: (SessionState, StepAction))
    ensures
        (r.0, r.1@) == spec_step(state, ev@),
{
    if state == SessionState::Closed {
        return (SessionState::Closed, StepAction::Ignore);
    }
    match ev {
        SessionEvent::Frame(f) => match f.opcode {
            OpCode::Text => {
                if utf8_check(f.payload.as_slice()) {
                    let echo = Frame {
                        fin: true,
                        opcode: f.opcode,
                        payload: copy_bytes(f.payload.as_slice()),
                    };
                    proof {
                        assert(echo@ =~= echo_frame(f@));
                    }
                    (SessionState::Open, StepAction::Echo(echo))
                } else {
                    (SessionState::Closed, StepAction::CloseProtocolError)
                }
            },
            OpCode::Binary => {
                let echo = Frame {
                    fin: true,
                    opcode: f.opcode,
                    payload: copy_bytes(f.payload.as_slice()),
                };
                proof {
                    assert(echo@ =~= echo_frame(f@));
                }
                (SessionState::Open, StepAction::Echo(echo))
            },
            OpCode::Close => (SessionState::Closed, StepAction::Ignore),
            OpCode::Other => (SessionState::Open, StepAction::Ignore),
        },
        SessionEvent::ReadFailure => (SessionState::Closed, StepAction::Ignore),
        SessionEvent::WriteFailure => (SessionState::Closed, StepAction::Ignore),
    }
}

/// The frames an Open session echoes for a list of observations: each
/// step's echo, up to and excluding the step that closes the session.
pub open spec fn spec_echoes(evs: Seq<EventModel>) -> Seq<FrameModel>
    decreases evs.len(),
{
    if evs.len() == 0 {
        seq![]
    } else {
        let (state, action) = spec_step(SessionState::Open, evs[0]);
        let here = match action {
            StepActionModel::Echo(f) => seq![f],
            StepActionModel::CloseProtocolError => seq![],
            StepActionModel::Ignore => seq![],
        };
        if state == SessionState::Open {
            here + spec_echoes(evs.drop_first())
        } else {
            here
        }
    }
}

/// Model of a frame list.
pub open spec fn frames_model(fs: Seq<Frame>) -> Seq<FrameModel> {
    fs.map_values(|f: Frame| f@)
}

/// The streaming-side log of a whole session: when the observer is
/// enabled, exactly one established event, one payload line per echoed
/// frame, and exactly one closed event, in that order.
pub open spec fn spec_session_logs(
    enabled: bool,
    ctx: ContextModel,
    evs: Seq<EventModel>,
) -> Seq<WsLogEventModel> {
    if enabled {
        seq![ws_event(ctx, WsLogKindModel::Established)] + frame_lines(ctx, spec_echoes(evs))
            + seq![ws_event(ctx, WsLogKindModel::Closed)]
    } else {
        seq![]
    }
}

/// One payload line per echoed frame, tagged with the context.
pub open spec fn frame_lines(ctx: ContextModel, fs: Seq<FrameModel>) -> Seq<WsLogEventModel> {
    fs.map_values(|f: FrameModel| ws_event(ctx, WsLogKindModel::FramePayload { payload: f.payload }))
}

/// What one whole session produced.
pub struct SessionRun {
    /// The frames echoed back, in order.
    pub echoes: Vec<Frame>,
    /// The streaming-side log, established first, closed last.
    pub logs: Vec<WsLogEvent>,
}

/// Runs a whole session over a list of observations: echoes until the
/// session closes, with the observer's established/closed pair around the
/// per-frame lines. The session ends Closed whether a Close frame, an I/O
/// failure, or the end of the observations ends it.
pub fn run_session(logger: &WsLogger, events: &Vec<SessionEvent>) -> (r: SessionRun)
    ensures
        frames_model(r.echoes@) == spec_echoes(session_events_model(events@)),
        ws_events_model(r.logs@) == spec_session_logs(
            logger.enabled,
            logger.ctx@,
            session_events_model(events@),
        ),
{
    let ghost evs = session_events_model(events@);
    let ghost ctx = logger.ctx@;
    let mut echoes: Vec<Frame> = Vec::new();
    let mut logs: Vec<WsLogEvent> = Vec::new();
    let mut established = logger.log_connection_established();
    logs.append(&mut established);
    proof {
        assert(frames_model(echoes@) =~= Seq::<FrameModel>::empty());
        assert(frame_lines(ctx, frames_model(echoes@)) =~= Seq::<WsLogEventModel>::empty());
        if logger.enabled {
            assert(ws_events_model(logs@) =~~= seq![ws_event(ctx, WsLogKindModel::Established)]
                + frame_lines(ctx, frames_model(echoes@)));
        } else {
            assert(ws_events_model(logs@) =~= Seq::<WsLogEventModel>::empty());
        }
        assert(evs.skip(0) =~= evs);
    }
    let n = events.len();
    let mut i: usize = 0;
    let mut state = SessionState::Open;
    while state == SessionState::Open && i < n
        invariant
            n == events@.len(),
            evs == session_events_model(events@),
            ctx == logger.ctx@,
            i <= n,
            state == SessionState::Open ==> frames_model(echoes@) + spec_echoes(evs.skip(i as int))
                == spec_echoes(evs),
            state == SessionState::Closed ==> frames_model(echoes@) == spec_echoes(evs),
            logger.enabled ==> ws_events_model(logs@) == seq![
                ws_event(ctx, WsLogKindModel::Established),
            ] + frame_lines(ctx, frames_model(echoes@)),
            !logger.enabled ==> ws_events_model(logs@) == Seq::<WsLogEventModel>::empty(),
        decreases n - i,
    {
        proof {
            assert(evs[i as int] == events@[i as int]@);
            assert(evs.skip(i as int)[0] == evs[i as int]);
            assert(evs.skip(i as int).drop_first() =~= evs.skip(i + 1));
        }
        let (next, action) = session_step(state, &events[i]);
        match action {
            StepAction::Echo(f) => {
                let ghost old_frames = frames_model(echoes@);
                let ghost old_logs = ws_events_model(logs@);
                let ghost fm = f@;
                let mut frame_line = logger.log_frame(f.payload.as_slice());
                logs.append(&mut frame_line);
                echoes.push(f);
                proof {
                    assert(frames_model(echoes@) =~~= old_frames + seq![fm]);
                    assert(frame_lines(ctx, old_frames + seq![fm]) =~~= frame_lines(ctx, old_frames)
                        + seq![ws_event(ctx, WsLogKindModel::FramePayload { payload: fm.payload })]);
                    if logger.enabled {
                        assert(ws_events_model(logs@) =~~= old_logs + seq![
                            ws_event(ctx, WsLogKindModel::FramePayload { payload: fm.payload }),
                        ]);
                        assert(ws_events_model(logs@) =~~= seq![
                            ws_event(ctx, WsLogKindModel::Established),
                        ] + frame_lines(ctx, frames_model(echoes@)));
                    } else {
                        assert(ws_events_model(logs@) =~= Seq::<WsLogEventModel>::empty());
                    }
                    assert(old_frames + seq![fm] + spec_echoes(evs.skip(i + 1)) =~= old_frames + (
                    seq![fm] + spec_echoes(evs.skip(i + 1))));
                }
            },
            StepAction::CloseProtocolError => {},
            StepAction::Ignore => {},
        }
        state = next;
        i += 1;
    }
    proof {
        if state == SessionState::Open {
            assert(evs.skip(n as int) =~= Seq::<EventModel>::empty());
            assert(frames_model(echoes@) + Seq::<FrameModel>::empty() =~= frames_model(echoes@));
        }
    }
    let mut closed = logger.log_connection_closed();
    logs.append(&mut closed);
    proof {
        assert(ws_events_model(logs@) =~~= spec_session_logs(logger.enabled, ctx, evs));
    }
    SessionRun { echoes, logs }
}


/// The frame inside a `Frame` observation.
pub open spec fn event_frame(e: EventModel) -> FrameModel
    recommends
        e is Frame,
{
    match e {
        EventModel::Frame(f) => f,
        _ => FrameModel { fin: false, opcode: OpCode::Other, payload: Seq::<u8>::empty() },
    }
}

/// Echo preservation: when every observation before the session would
/// close is a Text frame with valid text or a Binary frame, each one is
/// echoed, in order, as a final fragment with the same opcode and exactly
/// the same payload bytes.
pub proof fn lemma_echo_preserves(evs: Seq<EventModel>)
    requires
        forall|k: int|
            0 <= k < evs.len() ==> {
                let e = #[trigger] evs[k];
                &&& e is Frame
                &&& (event_frame(e).opcode == OpCode::Text || event_frame(e).opcode
                    == OpCode::Binary)
                &&& (event_frame(e).opcode == OpCode::Text ==> vstd::utf8::valid_utf8(
                    event_frame(e).payload,
                ))
            },
    ensures
        spec_echoes(evs).len() == evs.len(),
        forall|k: int|
            0 <= k < evs.len() ==> #[trigger] spec_echoes(evs)[k] == echo_frame(
                event_frame(evs[k]),
            ),
        forall|k: int|
            0 <= k < evs.len() ==> {
                &&& #[trigger] spec_echoes(evs)[k].opcode == event_frame(evs[k]).opcode
                &&& spec_echoes(evs)[k].payload == event_frame(evs[k]).payload
                &&& spec_echoes(evs)[k].fin
            },
    decreases evs.len(),
{
    if evs.len() > 0 {
        let rest = evs.drop_first();
        assert(forall|k: int| 0 <= k < rest.len() ==> #[trigger] rest[k] == evs[k + 1]);
        lemma_echo_preserves(rest);
        let f = event_frame(evs[0]);
        assert(spec_echoes(evs) == seq![echo_frame(f)] + spec_echoes(rest));
        assert forall|k: int| 0 <= k < evs.len() implies #[trigger] spec_echoes(evs)[k]
            == echo_frame(event_frame(evs[k])) by {
            if k > 0 {
                assert(spec_echoes(evs)[k] == spec_echoes(rest)[k - 1]);
                assert(rest[k - 1] == evs[k]);
            }
        }
    }
}

/// A Close frame first thing: nothing is echoed, and the enabled
/// observer's whole log is the established event followed at once by the
/// closed event.
pub proof fn lemma_close_first(evs: Seq<EventModel>, ctx: ContextModel)
    requires
        evs.len() > 0,
        evs[0] is Frame,
        event_frame(evs[0]).opcode == OpCode::Close,
    ensures
        spec_echoes(evs) == Seq::<FrameModel>::empty(),
        spec_session_logs(true, ctx, evs) == seq![
            ws_event(ctx, WsLogKindModel::Established),
            ws_event(ctx, WsLogKindModel::Closed),
        ],
{
    assert(spec_echoes(evs) =~= Seq::<FrameModel>::empty());
    assert(frame_lines(ctx, spec_echoes(evs)) =~= Seq::<WsLogEventModel>::empty());
    assert(spec_session_logs(true, ctx, evs) =~= seq![
        ws_event(ctx, WsLogKindModel::Established),
        ws_event(ctx, WsLogKindModel::Closed),
    ]);
}

/// Log bracketing: an enabled observer logs the established event first
/// and the closed event last, each exactly once — every line in between is
/// a frame payload — whatever the session observed.
pub proof fn lemma_log_bracketing(ctx: ContextModel, evs: Seq<EventModel>)
    ensures
        spec_session_logs(true, ctx, evs).len() >= 2,
        spec_session_logs(true, ctx, evs)[0] == ws_event(ctx, WsLogKindModel::Established),
        spec_session_logs(true, ctx, evs).last() == ws_event(ctx, WsLogKindModel::Closed),
        forall|k: int|
            0 < k < spec_session_logs(true, ctx, evs).len() - 1 ==> #[trigger] spec_session_logs(
                true,
                ctx,
                evs,
            )[k].kind is FramePayload,
{
    let logs = spec_session_logs(true, ctx, evs);
    let mid = frame_lines(ctx, spec_echoes(evs));
    assert(logs.len() == mid.len() + 2);
    assert forall|k: int| 0 < k < logs.len() - 1 implies #[trigger] logs[k].kind
        is FramePayload by {
        assert(logs[k] == mid[k - 1]);
        assert(mid[k - 1] == ws_event(
            ctx,
            WsLogKindModel::FramePayload { payload: spec_echoes(evs)[k - 1].payload },
        ));
    }
}

} // verus!
