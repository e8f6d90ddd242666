use stp::ids::{TerminalId, WindowId};
use stp::protocol::{
    decode_client_frame, decode_server_frame, encode_client_frame, encode_server_frame, ClientRequest,
    ProtocolError, ServerEvent, SessionSummary, MAX_FRAME_BYTES,
};
use stp::decode::{Field, JsonError};

#[test]
fn protocol_round_trips_spawn_attach_output_and_resize_frames() {
    let terminal_id = TerminalId::parse("00000000-0000-0000-0000-000000000501").expect("terminal id");
    let window_id = WindowId::parse("00000000-0000-0000-0000-000000000401").expect("window id");
    let spawn = ClientRequest::Spawn {
        terminal_id: terminal_id.clone(),
        window_id,
        workspace_path: "/tmp/worktree-a".to_owned(),
        shell: Some("sh".to_owned()),
        command: None,
    };

    let decoded_spawn = decode_client_frame(&encode_client_frame(&spawn).expect("encode spawn")).expect("spawn");
    let decoded_attach = decode_client_frame(
        &encode_client_frame(&ClientRequest::Attach { terminal_id: terminal_id.clone() }).expect("encode attach"),
    )
    .expect("attach");
    let decoded_resize = decode_client_frame(
        &encode_client_frame(&ClientRequest::Resize { terminal_id: terminal_id.clone(), cols: 120, rows: 40 })
            .expect("encode resize"),
    )
    .expect("resize");
    let output = ServerEvent::output_bytes(terminal_id.clone(), 7, b"hello");
    let decoded_output = decode_server_frame(&encode_server_frame(&output).expect("encode output")).expect("output");

    assert_eq!(decoded_spawn, spawn);
    assert_eq!(decoded_attach, ClientRequest::Attach { terminal_id: terminal_id.clone() });
    assert_eq!(decoded_resize, ClientRequest::Resize { terminal_id, cols: 120, rows: 40 });
    assert_eq!(decoded_output.output_data().expect("output bytes"), b"hello");
}

#[test]
fn protocol_preserves_non_utf8_pty_bytes_with_base64() {
    let terminal_id = TerminalId::parse("00000000-0000-0000-0000-000000000502").expect("terminal id");
    let bytes = [0, 159, 146, 150, 255];
    let output = ServerEvent::output_bytes(terminal_id, 9, &bytes);

    let decoded = decode_server_frame(&encode_server_frame(&output).expect("encode")).expect("decode");

    assert_eq!(decoded.output_data().expect("output bytes"), bytes);
}

#[test]
fn protocol_rejects_unknown_version_and_malformed_base64() {
    let unknown_version =
        decode_client_frame(r#"{"version":999,"type":"list"}"#).expect_err("unknown version should fail");
    let malformed_base64 = decode_server_frame(
        r#"{"version":1,"type":"output","terminal_id":"00000000-0000-0000-0000-000000000503","seq":1,"data_base64":"%"}"#,
    )
    .expect_err("malformed base64 should fail");

    assert!(matches!(unknown_version, ProtocolError::UnsupportedVersion { version: 999 }));
    assert!(matches!(malformed_base64, ProtocolError::MalformedBase64 { .. }));
}

#[test]
fn protocol_rejects_oversized_frames_and_payloads() {
    let oversized_frame = " ".repeat(MAX_FRAME_BYTES + 1);
    let oversized_payload = format!(
        r#"{{"version":1,"type":"input","terminal_id":"00000000-0000-0000-0000-000000000504","data_base64":"{}"}}"#,
        "A".repeat(700_000)
    );

    assert!(matches!(
        decode_client_frame(&oversized_frame).expect_err("frame too large"),
        ProtocolError::FrameTooLarge { .. }
    ));
    assert!(matches!(
        decode_client_frame(&oversized_payload).expect_err("payload too large"),
        ProtocolError::PayloadTooLarge { .. }
    ));
}

#[test]
fn frames_end_in_one_newline_and_carry_version_and_tag_first() {
    let frame = encode_client_frame(&ClientRequest::List).expect("encode list");
    assert_eq!(frame, "{\"version\":1,\"type\":\"list\"}\n");
    let id = TerminalId::from_u128(0x0123_4567_89ab_cdef_0011_2233_4455_6677);
    let frame = encode_client_frame(&ClientRequest::Capture { terminal_id: id, lines: Some(50) }).expect("encode");
    assert_eq!(
        frame,
        "{\"version\":1,\"type\":\"capture\",\"terminal_id\":\"01234567-89ab-cdef-0011-223344556677\",\"lines\":50}\n"
    );
}

#[test]
fn every_request_round_trips() {
    let t = TerminalId::from_u128(42);
    let w = WindowId::from_u128(7);
    let requests = vec![
        ClientRequest::Hello { client_id: "panel \"one\"\n".to_owned() },
        ClientRequest::Spawn {
            terminal_id: t,
            window_id: w,
            workspace_path: "/tmp/w".to_owned(),
            shell: None,
            command: Some(vec!["tmux".to_owned(), "attach".to_owned()]),
        },
        ClientRequest::Input { terminal_id: t, data_base64: "aGk=".to_owned() },
        ClientRequest::input_bytes(t, &[1, 2, 3]),
        ClientRequest::Capture { terminal_id: t, lines: None },
        ClientRequest::Terminate { terminal_id: t },
        ClientRequest::Detach { terminal_id: t },
        ClientRequest::Shutdown,
        ClientRequest::Status,
    ];
    for request in requests {
        let frame = encode_client_frame(&request).expect("encode");
        assert_eq!(decode_client_frame(&frame).expect("decode"), request);
    }
}

#[test]
fn every_event_round_trips() {
    let t = TerminalId::from_u128(9);
    let sessions = vec![
        SessionSummary { terminal_id: t, status: "live".to_owned() },
        SessionSummary { terminal_id: TerminalId::from_u128(10), status: "exited".to_owned() },
    ];
    let events = vec![
        ServerEvent::Ack { message: "ok".to_owned() },
        ServerEvent::HelloAck { server_id: "s".to_owned() },
        ServerEvent::Status { server_id: "s".to_owned(), pid: 4_000_000_000, sessions: sessions.clone() },
        ServerEvent::SessionList { sessions },
        ServerEvent::Spawned { terminal_id: t, process_id: Some(12) },
        ServerEvent::Snapshot { terminal_id: t, cols: 80, rows: 24, text: "$ ".to_owned() },
        ServerEvent::Exit { terminal_id: t, exit_code: Some(-1) },
        ServerEvent::Exit { terminal_id: t, exit_code: None },
        ServerEvent::Error { code: "gone".to_owned(), message: "no such terminal".to_owned() },
    ];
    for event in events {
        let frame = encode_server_frame(&event).expect("encode");
        assert_eq!(decode_server_frame(&frame).expect("decode"), event);
    }
}

#[test]
fn decode_reports_syntax_missing_fields_and_bad_ids() {
    assert!(matches!(decode_client_frame("{broken"), Err(ProtocolError::Decode(JsonError::Syntax))));
    assert!(matches!(decode_client_frame("[1]"), Err(ProtocolError::Decode(JsonError::NotAnObject))));
    assert!(matches!(
        decode_client_frame(r#"{"type":"list"}"#),
        Err(ProtocolError::Decode(JsonError::MissingField(Field::Version)))
    ));
    assert!(matches!(
        decode_client_frame(r#"{"version":1,"type":"attach","terminal_id":"nope"}"#),
        Err(ProtocolError::Decode(JsonError::InvalidId(Field::TerminalId)))
    ));
    assert!(matches!(
        decode_client_frame(r#"{"version":1,"type":"resize","terminal_id":"00000000-0000-0000-0000-000000000001","cols":70000,"rows":1}"#),
        Err(ProtocolError::Decode(JsonError::WrongType(Field::Cols)))
    ));
    assert!(matches!(
        decode_client_frame(r#"{"version":1,"type":"jump"}"#),
        Err(ProtocolError::Decode(JsonError::UnknownVariant(Field::Type)))
    ));
}

#[test]
fn trailing_newlines_are_ignored_and_oversized_payloads_refused() {
    assert_eq!(decode_client_frame("{\"version\":1,\"type\":\"list\"}\n\n").expect("list"), ClientRequest::List);
    let data = vec![7u8; 524_289];
    let request = ClientRequest::input_bytes(TerminalId::from_u128(1), &data);
    assert!(matches!(request.input_data(), Err(ProtocolError::PayloadTooLarge { limit: 524_288 })));
    let data = vec![7u8; 524_288];
    let request = ClientRequest::input_bytes(TerminalId::from_u128(1), &data);
    assert_eq!(request.input_data().expect("payload within limit"), data);
    assert_eq!(ClientRequest::List.input_data().expect("no payload"), Vec::<u8>::new());
}

#[test]
fn frames_stay_one_line_when_texts_hold_line_feeds() {
    let event = ServerEvent::Snapshot {
        terminal_id: TerminalId::from_u128(3),
        cols: 80,
        rows: 24,
        text: "line one\nline two\r\n".to_owned(),
    };
    let frame = encode_server_frame(&event).expect("encode");
    assert_eq!(frame.matches('\n').count(), 1);
    assert!(frame.ends_with('\n'));
    assert_eq!(decode_server_frame(&frame).expect("decode"), event);
}
