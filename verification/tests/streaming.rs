use echo_relay::logging::{ConnectionContext, WsLogKind, WsLogger};
use echo_relay::session::{
    run_session, session_step, Frame, OpCode, SessionEvent, SessionState, StepAction,
};

fn ctx() -> ConnectionContext {
    ConnectionContext { client_addr: b"127.0.0.1".to_vec(), id: 1, created_micros: 0 }
}

fn frame(opcode: OpCode, payload: &[u8]) -> SessionEvent {
    SessionEvent::Frame(Frame { fin: true, opcode, payload: payload.to_vec() })
}

fn kind_name(kind: &WsLogKind) -> &'static str {
    match kind {
        WsLogKind::Established => "established",
        WsLogKind::FramePayload { .. } => "frame",
        WsLogKind::FrameDuration { .. } => "duration",
        WsLogKind::Closed => "closed",
    }
}

#[test]
fn ping_is_echoed_then_close_ends_the_loop() {
    let logger = WsLogger::new(true, ctx());
    let events = vec![frame(OpCode::Text, b"ping"), frame(OpCode::Close, b"")];
    let run = run_session(&logger, &events);
    assert_eq!(run.echoes.len(), 1);
    assert_eq!(run.echoes[0].opcode, OpCode::Text);
    assert_eq!(run.echoes[0].payload, b"ping".to_vec());
    assert!(run.echoes[0].fin);
    let kinds: Vec<&str> = run.logs.iter().map(|e| kind_name(&e.kind)).collect();
    assert_eq!(kinds, vec!["established", "frame", "closed"]);
}

#[test]
fn close_first_echoes_nothing_and_closes_once() {
    let logger = WsLogger::new(true, ctx());
    let events = vec![
        frame(OpCode::Close, b""),
        frame(OpCode::Text, b"after"),
        frame(OpCode::Binary, b"after too"),
    ];
    let run = run_session(&logger, &events);
    assert!(run.echoes.is_empty());
    let kinds: Vec<&str> = run.logs.iter().map(|e| kind_name(&e.kind)).collect();
    assert_eq!(kinds, vec!["established", "closed"]);
}

#[test]
fn text_and_binary_frames_are_echoed_exactly() {
    let logger = WsLogger::new(false, ctx());
    let events = vec![
        frame(OpCode::Text, b"one"),
        frame(OpCode::Binary, &[0, 159, 146, 150]),
        frame(OpCode::Text, b"three"),
        frame(OpCode::Close, b""),
    ];
    let run = run_session(&logger, &events);
    assert_eq!(run.echoes.len(), 3);
    assert_eq!(run.echoes[0].opcode, OpCode::Text);
    assert_eq!(run.echoes[0].payload, b"one".to_vec());
    assert_eq!(run.echoes[1].opcode, OpCode::Binary);
    assert_eq!(run.echoes[1].payload, vec![0, 159, 146, 150]);
    assert_eq!(run.echoes[2].opcode, OpCode::Text);
    assert_eq!(run.echoes[2].payload, b"three".to_vec());
    assert!(run.logs.is_empty(), "a silent observer logs nothing");
}

#[test]
fn other_opcodes_are_ignored_without_a_transition() {
    let logger = WsLogger::new(true, ctx());
    let events = vec![
        frame(OpCode::Other, b"ping control"),
        frame(OpCode::Text, b"still open"),
        frame(OpCode::Close, b""),
    ];
    let run = run_session(&logger, &events);
    assert_eq!(run.echoes.len(), 1);
    assert_eq!(run.echoes[0].payload, b"still open".to_vec());
}

#[test]
fn read_failure_closes_the_session() {
    let logger = WsLogger::new(true, ctx());
    let events = vec![
        frame(OpCode::Text, b"a"),
        SessionEvent::ReadFailure,
        frame(OpCode::Text, b"never seen"),
    ];
    let run = run_session(&logger, &events);
    assert_eq!(run.echoes.len(), 1);
    let kinds: Vec<&str> = run.logs.iter().map(|e| kind_name(&e.kind)).collect();
    assert_eq!(kinds, vec!["established", "frame", "closed"]);
}

#[test]
fn write_failure_closes_the_session() {
    let logger = WsLogger::new(true, ctx());
    let events = vec![
        frame(OpCode::Binary, b"sent"),
        SessionEvent::WriteFailure,
        frame(OpCode::Binary, b"not sent"),
    ];
    let run = run_session(&logger, &events);
    assert_eq!(run.echoes.len(), 1);
    assert_eq!(run.echoes[0].payload, b"sent".to_vec());
}

#[test]
fn invalid_text_payload_closes_with_protocol_error() {
    let (state, action) = session_step(
        SessionState::Open,
        &frame(OpCode::Text, &[0xff, 0xfe, 0xfd]),
    );
    assert_eq!(state, SessionState::Closed);
    assert!(matches!(action, StepAction::CloseProtocolError));

    let logger = WsLogger::new(true, ctx());
    let events = vec![frame(OpCode::Text, &[0xff, 0xfe]), frame(OpCode::Text, b"after")];
    let run = run_session(&logger, &events);
    assert!(run.echoes.is_empty());
    let kinds: Vec<&str> = run.logs.iter().map(|e| kind_name(&e.kind)).collect();
    assert_eq!(kinds, vec!["established", "closed"]);
}

#[test]
fn multibyte_text_passes_the_utf8_gate() {
    let payload = "héllo ✓".as_bytes();
    let (state, action) = session_step(SessionState::Open, &frame(OpCode::Text, payload));
    assert_eq!(state, SessionState::Open);
    match action {
        StepAction::Echo(f) => {
            assert_eq!(f.opcode, OpCode::Text);
            assert_eq!(f.payload, payload.to_vec());
            assert!(f.fin);
        },
        _ => panic!("valid text must be echoed"),
    }
}

#[test]
fn closed_state_is_terminal() {
    let (state, action) = session_step(SessionState::Closed, &frame(OpCode::Text, b"late"));
    assert_eq!(state, SessionState::Closed);
    assert!(matches!(action, StepAction::Ignore));
}

#[test]
fn session_logs_are_tagged_with_the_context() {
    let logger = WsLogger::new(true, ctx());
    let events = vec![frame(OpCode::Text, b"x"), frame(OpCode::Close, b"")];
    let run = run_session(&logger, &events);
    for event in &run.logs {
        assert_eq!(event.ctx.client_addr, b"127.0.0.1".to_vec());
        assert_eq!(event.ctx.id, 1);
    }
}

#[test]
fn duration_lines_carry_the_measured_time() {
    let logger = WsLogger::new(true, ctx());
    let evs = logger.log_duration(1234);
    assert_eq!(evs.len(), 1);
    match &evs[0].kind {
        WsLogKind::FrameDuration { micros } => assert_eq!(*micros, 1234),
        _ => panic!("expected a duration line"),
    }
    let silent = WsLogger::new(false, ctx());
    assert!(silent.log_duration(1234).is_empty());
}
