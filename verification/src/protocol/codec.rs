//! Frames: one JSON object per line, holding `version`, the `type` tag of the
//! request or event, and its fields in declaration order.

use vstd::prelude::*;

use super::error::{ProtocolError, ProtocolFault};
use super::model::{
    event_payload, request_payload, summaries_view, ClientRequest, Event, Request, ServerEvent,
    SessionSummary, Summary, PROTOCOL_VERSION,
};
use super::payload::{byte_len, MAX_FRAME_BYTES};
use crate::decode::{
    dec_opt_i32, dec_opt_str, dec_opt_str_list, dec_opt_uint, dec_str, dec_uint, dec_uuid, entries_of,
    entry, field_opt_i32, field_opt_str, field_opt_str_list, field_opt_uint, field_str, field_uint,
    field_uuid, i32_j, lemma_field_at, lemma_keys_distinct, lemma_str_items_round_trip, opt_i32_j,
    opt_i32_json, opt_str_j, opt_str_json, opt_str_list_j, opt_str_list_json, opt_str_view,
    opt_strings_view, opt_uint_j, str_json, str_list_j, uuid_json, Entries, Field, JsonError,
};
use crate::ids::{uuid_hyphenated, uuid_parsed, TerminalId, WindowId};
use crate::json::{
    entries_model, items_model, json_parsed, json_wf, json_written, keys_of, lemma_array_model,
    lemma_object_model, max_depth, parse_json, write_json, Json, JsonValue,
};
use crate::text::{chars_of, string_of, text_eq};

verus! {

// ---------------------------------------------------------------------------
// Frame text.

/// The text with its trailing newlines removed.
pub open spec fn trim_newlines(s: Seq<char>) -> Seq<char>
    decreases s.len(),
{
    if s.len() > 0 && s.last() == '\n' {
        trim_newlines(s.drop_last())
    } else {
        s
    }
}

/// A frame without its trailing newlines.
pub fn frame_body(raw: &str) -> (r: String)
    ensures
        r@ == trim_newlines(raw@),
{
    let mut cs = chars_of(raw);
    while cs.len() > 0 && cs[cs.len() - 1] == '\n'
        invariant
            trim_newlines(raw@) == trim_newlines(cs@),
        decreases cs.len(),
    {
        cs.pop();
    }
    string_of(&cs)
}

/// The UUID facts a frame relies on: each identifier's text parses back to it.
pub open spec fn id_reads_back(v: u128) -> bool {
    uuid_parsed(uuid_hyphenated(v)) == Some(v)
}

pub open spec fn id_j(v: u128) -> Json {
    Json::Str(uuid_hyphenated(v))
}

// ---------------------------------------------------------------------------
// Requests.

/// The `type` tag of a request.
pub open spec fn request_tag(m: Request) -> Seq<char> {
    match m {
        Request::Hello { .. } => "hello"@,
        Request::Spawn { .. } => "spawn"@,
        Request::Attach { .. } => "attach"@,
        Request::Input { .. } => "input"@,
        Request::Resize { .. } => "resize"@,
        Request::Capture { .. } => "capture"@,
        Request::Terminate { .. } => "terminate"@,
        Request::Detach { .. } => "detach"@,
        Request::Shutdown => "shutdown"@,
        Request::List => "list"@,
        Request::Status => "status"@,
    }
}

/// The fields a request frame holds, in order.
pub open spec fn request_keys(m: Request) -> Seq<Field> {
    seq![Field::Version, Field::Type] + match m {
        Request::Hello { .. } => seq![Field::ClientId],
        Request::Spawn { .. } => seq![
            Field::TerminalId,
            Field::WindowId,
            Field::WorkspacePath,
            Field::Shell,
            Field::Command,
        ],
        Request::Input { .. } => seq![Field::TerminalId, Field::DataBase64],
        Request::Resize { .. } => seq![Field::TerminalId, Field::Cols, Field::Rows],
        Request::Capture { .. } => seq![Field::TerminalId, Field::Lines],
        Request::Attach { .. } | Request::Terminate { .. } | Request::Detach { .. } => seq![
            Field::TerminalId,
        ],
        _ => Seq::empty(),
    }
}

/// The values of those fields.
pub open spec fn request_values(m: Request) -> Seq<Json> {
    seq![Json::UInt(PROTOCOL_VERSION as u64), Json::Str(request_tag(m))] + match m {
        Request::Hello { client_id } => seq![Json::Str(client_id)],
        Request::Spawn { terminal_id, window_id, workspace_path, shell, command } => seq![
            id_j(terminal_id.value),
            id_j(window_id.value),
            Json::Str(workspace_path),
            opt_str_j(shell),
            opt_str_list_j(command),
        ],
        Request::Input { terminal_id, data_base64 } => seq![id_j(terminal_id.value), Json::Str(data_base64)],
        Request::Resize { terminal_id, cols, rows } => seq![
            id_j(terminal_id.value),
            Json::UInt(cols as u64),
            Json::UInt(rows as u64),
        ],
        Request::Capture { terminal_id, lines } => seq![
            id_j(terminal_id.value),
            opt_uint_j(
                match lines {
                    Some(n) => Some(n as u64),
                    None => None,
                },
            ),
        ],
        Request::Attach { terminal_id } => seq![id_j(terminal_id.value)],
        Request::Terminate { terminal_id } => seq![id_j(terminal_id.value)],
        Request::Detach { terminal_id } => seq![id_j(terminal_id.value)],
        _ => Seq::empty(),
    }
}

/// The JSON object a request frame holds.
pub open spec fn request_json(m: Request) -> Json {
    Json::Object(entries_of(request_keys(m), request_values(m)))
}

/// The identifiers of a request read back from their text.
pub open spec fn request_ids_read_back(m: Request) -> bool {
    match m {
        Request::Spawn { terminal_id, window_id, .. } => id_reads_back(terminal_id.value)
            && id_reads_back(window_id.value),
        Request::Attach { terminal_id } => id_reads_back(terminal_id.value),
        Request::Input { terminal_id, .. } => id_reads_back(terminal_id.value),
        Request::Resize { terminal_id, .. } => id_reads_back(terminal_id.value),
        Request::Capture { terminal_id, .. } => id_reads_back(terminal_id.value),
        Request::Terminate { terminal_id } => id_reads_back(terminal_id.value),
        Request::Detach { terminal_id } => id_reads_back(terminal_id.value),
        _ => true,
    }
}

/// A request whose only field is its terminal.
pub open spec fn request_with_id(tag: Seq<char>, t: TerminalId) -> Request {
    if tag == "attach"@ {
        Request::Attach { terminal_id: t }
    } else if tag == "terminate"@ {
        Request::Terminate { terminal_id: t }
    } else {
        Request::Detach { terminal_id: t }
    }
}

/// The request a tag and its fields decode to, field by field in order.
pub open spec fn request_of_fields(es: Entries, tag: Seq<char>) -> Result<Request, JsonError> {
    if tag == "hello"@ {
        match dec_str(es, Field::ClientId) {
            Ok(c) => Ok(Request::Hello { client_id: c }),
            Err(e) => Err(e),
        }
    } else if tag == "spawn"@ {
        match dec_uuid(es, Field::TerminalId) {
            Err(e) => Err(e),
            Ok(t) => match dec_uuid(es, Field::WindowId) {
                Err(e) => Err(e),
                Ok(w) => match dec_str(es, Field::WorkspacePath) {
                    Err(e) => Err(e),
                    Ok(p) => match dec_opt_str(es, Field::Shell) {
                        Err(e) => Err(e),
                        Ok(sh) => match dec_opt_str_list(es, Field::Command) {
                            Err(e) => Err(e),
                            Ok(c) => Ok(
                                Request::Spawn {
                                    terminal_id: TerminalId { value: t },
                                    window_id: WindowId { value: w },
                                    workspace_path: p,
                                    shell: sh,
                                    command: c,
                                },
                            ),
                        },
                    },
                },
            },
        }
    } else if tag == "attach"@ || tag == "terminate"@ || tag == "detach"@ {
        match dec_uuid(es, Field::TerminalId) {
            Err(e) => Err(e),
            Ok(t) => Ok(request_with_id(tag, TerminalId { value: t })),
        }
    } else if tag == "input"@ {
        match dec_uuid(es, Field::TerminalId) {
            Err(e) => Err(e),
            Ok(t) => match dec_str(es, Field::DataBase64) {
                Err(e) => Err(e),
                Ok(d) => Ok(Request::Input { terminal_id: TerminalId { value: t }, data_base64: d }),
            },
        }
    } else if tag == "resize"@ {
        match dec_uuid(es, Field::TerminalId) {
            Err(e) => Err(e),
            Ok(t) => match dec_uint(es, Field::Cols, 0xffff) {
                Err(e) => Err(e),
                Ok(c) => match dec_uint(es, Field::Rows, 0xffff) {
                    Err(e) => Err(e),
                    Ok(r) => Ok(
                        Request::Resize { terminal_id: TerminalId { value: t }, cols: c as u16, rows: r as u16 },
                    ),
                },
            },
        }
    } else if tag == "capture"@ {
        match dec_uuid(es, Field::TerminalId) {
            Err(e) => Err(e),
            Ok(t) => match dec_opt_uint(es, Field::Lines, 0xffff) {
                Err(e) => Err(e),
                Ok(l) => Ok(
                    Request::Capture {
                        terminal_id: TerminalId { value: t },
                        lines: match l {
                            Some(n) => Some(n as u16),
                            None => None,
                        },
                    },
                ),
            },
        }
    } else if tag == "shutdown"@ {
        Ok(Request::Shutdown)
    } else if tag == "list"@ {
        Ok(Request::List)
    } else if tag == "status"@ {
        Ok(Request::Status)
    } else {
        Err(JsonError::UnknownVariant(Field::Type))
    }
}

/// The version and request a frame's JSON holds.
pub open spec fn client_frame_of_json(j: Json) -> Result<(u16, Request), JsonError> {
    match j {
        Json::Object(es) => match dec_uint(es, Field::Version, 0xffff) {
            Err(e) => Err(e),
            Ok(v) => match dec_str(es, Field::Type) {
                Err(e) => Err(e),
                Ok(tag) => match request_of_fields(es, tag) {
                    Err(e) => Err(e),
                    Ok(m) => Ok((v as u16, m)),
                },
            },
        },
        _ => Err(JsonError::NotAnObject),
    }
}

/// What a client frame decodes to: refused when it is longer than
/// `MAX_FRAME_BYTES`, when its text (without trailing newlines) is no JSON of a
/// request frame, when its version is not `PROTOCOL_VERSION`, or when the input
/// payload it carries is refused.
pub open spec fn decode_client_spec(raw: Seq<char>) -> Result<Request, ProtocolFault> {
    if byte_len(raw) > MAX_FRAME_BYTES {
        Err(ProtocolFault::FrameTooLarge(MAX_FRAME_BYTES))
    } else {
        match json_parsed(trim_newlines(raw)) {
            None => Err(ProtocolFault::Decode(JsonError::Syntax)),
            Some(j) => match client_frame_of_json(j) {
                Err(e) => Err(ProtocolFault::Decode(e)),
                Ok((version, m)) => if version != PROTOCOL_VERSION {
                    Err(ProtocolFault::UnsupportedVersion(version))
                } else {
                    match request_payload(m) {
                        Err(f) => Err(f),
                        Ok(_) => Ok(m),
                    }
                },
            },
        }
    }
}

pub open spec fn request_result(r: Result<ClientRequest, ProtocolError>) -> Result<Request, ProtocolFault> {
    match r {
        Ok(m) => Ok(m@),
        Err(e) => Err(e@),
    }
}

/// The frame text is `text` followed by one newline.
pub open spec fn framed(frame: Seq<char>, text: Seq<char>) -> bool {
    frame == text.push('\n')
}

/// A frame is one line: it ends in a line feed and holds no other.
pub open spec fn one_line(frame: Seq<char>) -> bool {
    &&& frame.len() > 0
    &&& frame.last() == '\n'
    &&& !frame.drop_last().contains('\n')
}

// ---------------------------------------------------------------------------
// Events.

/// The `type` tag of an event.
pub open spec fn event_tag(m: Event) -> Seq<char> {
    match m {
        Event::Ack { .. } => "ack"@,
        Event::HelloAck { .. } => "hello_ack"@,
        Event::Status { .. } => "status"@,
        Event::SessionList { .. } => "session_list"@,
        Event::Spawned { .. } => "spawned"@,
        Event::Snapshot { .. } => "snapshot"@,
        Event::Output { .. } => "output"@,
        Event::Exit { .. } => "exit"@,
        Event::Error { .. } => "error"@,
    }
}

pub open spec fn summary_keys() -> Seq<Field> {
    seq![Field::TerminalId, Field::Status]
}

/// The JSON object of a session summary.
pub open spec fn summary_json(s: Summary) -> Json {
    Json::Object(entries_of(summary_keys(), seq![id_j(s.terminal_id.value), Json::Str(s.status)]))
}

pub open spec fn summaries_json(l: Seq<Summary>) -> Json {
    Json::Array(l.map_values(|s: Summary| summary_json(s)))
}

/// The fields an event frame holds, in order.
pub open spec fn event_keys(m: Event) -> Seq<Field> {
    seq![Field::Version, Field::Type] + match m {
        Event::Ack { .. } => seq![Field::Message],
        Event::HelloAck { .. } => seq![Field::ServerId],
        Event::Status { .. } => seq![Field::ServerId, Field::Pid, Field::Sessions],
        Event::SessionList { .. } => seq![Field::Sessions],
        Event::Spawned { .. } => seq![Field::TerminalId, Field::ProcessId],
        Event::Snapshot { .. } => seq![Field::TerminalId, Field::Cols, Field::Rows, Field::Text],
        Event::Output { .. } => seq![Field::TerminalId, Field::Sequence, Field::DataBase64],
        Event::Exit { .. } => seq![Field::TerminalId, Field::ExitCode],
        Event::Error { .. } => seq![Field::Code, Field::Message],
    }
}

/// The values of those fields.
pub open spec fn event_values(m: Event) -> Seq<Json> {
    seq![Json::UInt(PROTOCOL_VERSION as u64), Json::Str(event_tag(m))] + match m {
        Event::Ack { message } => seq![Json::Str(message)],
        Event::HelloAck { server_id } => seq![Json::Str(server_id)],
        Event::Status { server_id, pid, sessions } => seq![
            Json::Str(server_id),
            Json::UInt(pid as u64),
            summaries_json(sessions),
        ],
        Event::SessionList { sessions } => seq![summaries_json(sessions)],
        Event::Spawned { terminal_id, process_id } => seq![
            id_j(terminal_id.value),
            opt_uint_j(
                match process_id {
                    Some(n) => Some(n as u64),
                    None => None,
                },
            ),
        ],
        Event::Snapshot { terminal_id, cols, rows, text } => seq![
            id_j(terminal_id.value),
            Json::UInt(cols as u64),
            Json::UInt(rows as u64),
            Json::Str(text),
        ],
        Event::Output { terminal_id, seq, data_base64 } => seq![
            id_j(terminal_id.value),
            Json::UInt(seq),
            Json::Str(data_base64),
        ],
        Event::Exit { terminal_id, exit_code } => seq![id_j(terminal_id.value), opt_i32_j(exit_code)],
        Event::Error { code, message } => seq![Json::Str(code), Json::Str(message)],
    }
}

/// The JSON object an event frame holds.
pub open spec fn event_json(m: Event) -> Json {
    Json::Object(entries_of(event_keys(m), event_values(m)))
}

pub open spec fn summaries_ids_read_back(l: Seq<Summary>) -> bool {
    forall|i: int| 0 <= i < l.len() ==> id_reads_back(#[trigger] l[i].terminal_id.value)
}

/// The identifiers of an event read back from their text.
pub open spec fn event_ids_read_back(m: Event) -> bool {
    match m {
        Event::Status { sessions, .. } => summaries_ids_read_back(sessions),
        Event::SessionList { sessions } => summaries_ids_read_back(sessions),
        Event::Spawned { terminal_id, .. } => id_reads_back(terminal_id.value),
        Event::Snapshot { terminal_id, .. } => id_reads_back(terminal_id.value),
        Event::Output { terminal_id, .. } => id_reads_back(terminal_id.value),
        Event::Exit { terminal_id, .. } => id_reads_back(terminal_id.value),
        _ => true,
    }
}

/// The session summary an object decodes to.
pub open spec fn summary_of_json(j: Json) -> Result<Summary, JsonError> {
    match j {
        Json::Object(es) => match dec_uuid(es, Field::TerminalId) {
            Err(e) => Err(e),
            Ok(t) => match dec_str(es, Field::Status) {
                Err(e) => Err(e),
                Ok(s) => Ok(Summary { terminal_id: TerminalId { value: t }, status: s }),
            },
        },
        _ => Err(JsonError::NotAnObject),
    }
}

/// The summaries an array decodes to; the first refused item decides the error.
pub open spec fn summaries_of(items: Seq<Json>) -> Result<Seq<Summary>, JsonError>
    decreases items.len(),
{
    if items.len() == 0 {
        Ok(Seq::empty())
    } else {
        match summaries_of(items.drop_last()) {
            Err(e) => Err(e),
            Ok(prev) => match summary_of_json(items.last()) {
                Err(e) => Err(e),
                Ok(s) => Ok(prev.push(s)),
            },
        }
    }
}

/// A required array-of-summaries field.
pub open spec fn dec_summaries(es: Entries, f: Field) -> Result<Seq<Summary>, JsonError> {
    match crate::json::spec_field(es, f.spec_name()) {
        None => Err(JsonError::MissingField(f)),
        Some(Json::Array(items)) => summaries_of(items),
        Some(_) => Err(JsonError::WrongType(f)),
    }
}

/// The event a tag and its fields decode to, field by field in order.
pub open spec fn event_of_fields(es: Entries, tag: Seq<char>) -> Result<Event, JsonError> {
    if tag == "ack"@ {
        match dec_str(es, Field::Message) {
            Ok(m) => Ok(Event::Ack { message: m }),
            Err(e) => Err(e),
        }
    } else if tag == "hello_ack"@ {
        match dec_str(es, Field::ServerId) {
            Ok(s) => Ok(Event::HelloAck { server_id: s }),
            Err(e) => Err(e),
        }
    } else if tag == "status"@ {
        match dec_str(es, Field::ServerId) {
            Err(e) => Err(e),
            Ok(s) => match dec_uint(es, Field::Pid, 0xffff_ffff) {
                Err(e) => Err(e),
                Ok(p) => match dec_summaries(es, Field::Sessions) {
                    Err(e) => Err(e),
                    Ok(l) => Ok(Event::Status { server_id: s, pid: p as u32, sessions: l }),
                },
            },
        }
    } else if tag == "session_list"@ {
        match dec_summaries(es, Field::Sessions) {
            Err(e) => Err(e),
            Ok(l) => Ok(Event::SessionList { sessions: l }),
        }
    } else if tag == "spawned"@ {
        match dec_uuid(es, Field::TerminalId) {
            Err(e) => Err(e),
            Ok(t) => match dec_opt_uint(es, Field::ProcessId, 0xffff_ffff) {
                Err(e) => Err(e),
                Ok(p) => Ok(
                    Event::Spawned {
                        terminal_id: TerminalId { value: t },
                        process_id: match p {
                            Some(n) => Some(n as u32),
                            None => None,
                        },
                    },
                ),
            },
        }
    } else if tag == "snapshot"@ {
        match dec_uuid(es, Field::TerminalId) {
            Err(e) => Err(e),
            Ok(t) => match dec_uint(es, Field::Cols, 0xffff) {
                Err(e) => Err(e),
                Ok(c) => match dec_uint(es, Field::Rows, 0xffff) {
                    Err(e) => Err(e),
                    Ok(r) => match dec_str(es, Field::Text) {
                        Err(e) => Err(e),
                        Ok(x) => Ok(
                            Event::Snapshot {
                                terminal_id: TerminalId { value: t },
                                cols: c as u16,
                                rows: r as u16,
                                text: x,
                            },
                        ),
                    },
                },
            },
        }
    } else if tag == "output"@ {
        match dec_uuid(es, Field::TerminalId) {
            Err(e) => Err(e),
            Ok(t) => match dec_uint(es, Field::Sequence, 0xffff_ffff_ffff_ffff) {
                Err(e) => Err(e),
                Ok(n) => match dec_str(es, Field::DataBase64) {
                    Err(e) => Err(e),
                    Ok(d) => Ok(Event::Output { terminal_id: TerminalId { value: t }, seq: n, data_base64: d }),
                },
            },
        }
    } else if tag == "exit"@ {
        match dec_uuid(es, Field::TerminalId) {
            Err(e) => Err(e),
            Ok(t) => match dec_opt_i32(es, Field::ExitCode) {
                Err(e) => Err(e),
                Ok(c) => Ok(Event::Exit { terminal_id: TerminalId { value: t }, exit_code: c }),
            },
        }
    } else if tag == "error"@ {
        match dec_str(es, Field::Code) {
            Err(e) => Err(e),
            Ok(c) => match dec_str(es, Field::Message) {
                Err(e) => Err(e),
                Ok(m) => Ok(Event::Error { code: c, message: m }),
            },
        }
    } else {
        Err(JsonError::UnknownVariant(Field::Type))
    }
}

/// The version and event a frame's JSON holds.
pub open spec fn server_frame_of_json(j: Json) -> Result<(u16, Event), JsonError> {
    match j {
        Json::Object(es) => match dec_uint(es, Field::Version, 0xffff) {
            Err(e) => Err(e),
            Ok(v) => match dec_str(es, Field::Type) {
                Err(e) => Err(e),
                Ok(tag) => match event_of_fields(es, tag) {
                    Err(e) => Err(e),
                    Ok(m) => Ok((v as u16, m)),
                },
            },
        },
        _ => Err(JsonError::NotAnObject),
    }
}

/// What a server frame decodes to, refused on the same grounds as a client frame.
pub open spec fn decode_server_spec(raw: Seq<char>) -> Result<Event, ProtocolFault> {
    if byte_len(raw) > MAX_FRAME_BYTES {
        Err(ProtocolFault::FrameTooLarge(MAX_FRAME_BYTES))
    } else {
        match json_parsed(trim_newlines(raw)) {
            None => Err(ProtocolFault::Decode(JsonError::Syntax)),
            Some(j) => match server_frame_of_json(j) {
                Err(e) => Err(ProtocolFault::Decode(e)),
                Ok((version, m)) => if version != PROTOCOL_VERSION {
                    Err(ProtocolFault::UnsupportedVersion(version))
                } else {
                    match event_payload(m) {
                        Err(f) => Err(f),
                        Ok(_) => Ok(m),
                    }
                },
            },
        }
    }
}

pub open spec fn event_result(r: Result<ServerEvent, ProtocolError>) -> Result<Event, ProtocolFault> {
    match r {
        Ok(m) => Ok(m@),
        Err(e) => Err(e@),
    }
}


/// Each request has its own tag: no two tags agree in length, first and last character.
proof fn lemma_request_tags(m: Request)
    ensures
        (request_tag(m) == "hello"@) == (m is Hello),
        (request_tag(m) == "spawn"@) == (m is Spawn),
        (request_tag(m) == "attach"@) == (m is Attach),
        (request_tag(m) == "input"@) == (m is Input),
        (request_tag(m) == "resize"@) == (m is Resize),
        (request_tag(m) == "capture"@) == (m is Capture),
        (request_tag(m) == "terminate"@) == (m is Terminate),
        (request_tag(m) == "detach"@) == (m is Detach),
        (request_tag(m) == "shutdown"@) == (m is Shutdown),
        (request_tag(m) == "list"@) == (m is List),
        (request_tag(m) == "status"@) == (m is Status),
{
    reveal_strlit("hello");
    reveal_strlit("spawn");
    reveal_strlit("attach");
    reveal_strlit("input");
    reveal_strlit("resize");
    reveal_strlit("capture");
    reveal_strlit("terminate");
    reveal_strlit("detach");
    reveal_strlit("shutdown");
    reveal_strlit("list");
    reveal_strlit("status");
    let t = request_tag(m);
    assert(t.len() > 0);
    if !(m is Hello) {
        let l = "hello"@;
        assert(t.len() != l.len() || t[0] != l[0] || t[t.len() - 1] != l[l.len() - 1]);
    }
    if !(m is Spawn) {
        let l = "spawn"@;
        assert(t.len() != l.len() || t[0] != l[0] || t[t.len() - 1] != l[l.len() - 1]);
    }
    if !(m is Attach) {
        let l = "attach"@;
        assert(t.len() != l.len() || t[0] != l[0] || t[t.len() - 1] != l[l.len() - 1]);
    }
    if !(m is Input) {
        let l = "input"@;
        assert(t.len() != l.len() || t[0] != l[0] || t[t.len() - 1] != l[l.len() - 1]);
    }
    if !(m is Resize) {
        let l = "resize"@;
        assert(t.len() != l.len() || t[0] != l[0] || t[t.len() - 1] != l[l.len() - 1]);
    }
    if !(m is Capture) {
        let l = "capture"@;
        assert(t.len() != l.len() || t[0] != l[0] || t[t.len() - 1] != l[l.len() - 1]);
    }
    if !(m is Terminate) {
        let l = "terminate"@;
        assert(t.len() != l.len() || t[0] != l[0] || t[t.len() - 1] != l[l.len() - 1]);
    }
    if !(m is Detach) {
        let l = "detach"@;
        assert(t.len() != l.len() || t[0] != l[0] || t[t.len() - 1] != l[l.len() - 1]);
    }
    if !(m is Shutdown) {
        let l = "shutdown"@;
        assert(t.len() != l.len() || t[0] != l[0] || t[t.len() - 1] != l[l.len() - 1]);
    }
    if !(m is List) {
        let l = "list"@;
        assert(t.len() != l.len() || t[0] != l[0] || t[t.len() - 1] != l[l.len() - 1]);
    }
    if !(m is Status) {
        let l = "status"@;
        assert(t.len() != l.len() || t[0] != l[0] || t[t.len() - 1] != l[l.len() - 1]);
    }
}

/// Each event has its own tag: no two tags agree in length, first and last character.
proof fn lemma_event_tags(m: Event)
    ensures
        (event_tag(m) == "ack"@) == (m is Ack),
        (event_tag(m) == "hello_ack"@) == (m is HelloAck),
        (event_tag(m) == "status"@) == (m is Status),
        (event_tag(m) == "session_list"@) == (m is SessionList),
        (event_tag(m) == "spawned"@) == (m is Spawned),
        (event_tag(m) == "snapshot"@) == (m is Snapshot),
        (event_tag(m) == "output"@) == (m is Output),
        (event_tag(m) == "exit"@) == (m is Exit),
        (event_tag(m) == "error"@) == (m is Error),
{
    reveal_strlit("ack");
    reveal_strlit("hello_ack");
    reveal_strlit("status");
    reveal_strlit("session_list");
    reveal_strlit("spawned");
    reveal_strlit("snapshot");
    reveal_strlit("output");
    reveal_strlit("exit");
    reveal_strlit("error");
    let t = event_tag(m);
    assert(t.len() > 0);
    if !(m is Ack) {
        let l = "ack"@;
        assert(t.len() != l.len() || t[0] != l[0] || t[t.len() - 1] != l[l.len() - 1]);
    }
    if !(m is HelloAck) {
        let l = "hello_ack"@;
        assert(t.len() != l.len() || t[0] != l[0] || t[t.len() - 1] != l[l.len() - 1]);
    }
    if !(m is Status) {
        let l = "status"@;
        assert(t.len() != l.len() || t[0] != l[0] || t[t.len() - 1] != l[l.len() - 1]);
    }
    if !(m is SessionList) {
        let l = "session_list"@;
        assert(t.len() != l.len() || t[0] != l[0] || t[t.len() - 1] != l[l.len() - 1]);
    }
    if !(m is Spawned) {
        let l = "spawned"@;
        assert(t.len() != l.len() || t[0] != l[0] || t[t.len() - 1] != l[l.len() - 1]);
    }
    if !(m is Snapshot) {
        let l = "snapshot"@;
        assert(t.len() != l.len() || t[0] != l[0] || t[t.len() - 1] != l[l.len() - 1]);
    }
    if !(m is Output) {
        let l = "output"@;
        assert(t.len() != l.len() || t[0] != l[0] || t[t.len() - 1] != l[l.len() - 1]);
    }
    if !(m is Exit) {
        let l = "exit"@;
        assert(t.len() != l.len() || t[0] != l[0] || t[t.len() - 1] != l[l.len() - 1]);
    }
    if !(m is Error) {
        let l = "error"@;
        assert(t.len() != l.len() || t[0] != l[0] || t[t.len() - 1] != l[l.len() - 1]);
    }
}


// ---------------------------------------------------------------------------
// Well-formed JSON and reading frames back.

/// An object whose fields are distinct and whose values are well formed one
/// level down is well formed.
pub proof fn lemma_object_wf(fs: Seq<Field>, vs: Seq<Json>, d: nat)
    requires
        fs.len() == vs.len(),
        fs.no_duplicates(),
        d > 0,
        forall|i: int| 0 <= i < vs.len() ==> json_wf(#[trigger] vs[i], (d - 1) as nat),
    ensures
        json_wf(Json::Object(entries_of(fs, vs)), d),
{
    let es = entries_of(fs, vs);
    lemma_keys_distinct(es, fs);
    assert forall|i: int| 0 <= i < es.len() implies json_wf(#[trigger] es[i].1, (d - 1) as nat) by {
        assert(es[i].1 == vs[i]);
    }
}

proof fn lemma_str_list_wf(o: Option<Seq<Seq<char>>>, d: nat)
    requires
        d > 0,
    ensures
        json_wf(opt_str_list_j(o), d),
{
    if let Some(l) = o {
        let items = l.map_values(|s: Seq<char>| Json::Str(s));
        assert forall|i: int| 0 <= i < items.len() implies json_wf(#[trigger] items[i], (d - 1) as nat) by {
        }
    }
}

/// Request frames are well-formed JSON.
pub proof fn lemma_request_json_wf(m: Request)
    ensures
        json_wf(request_json(m), max_depth()),
{
    let fs = request_keys(m);
    let vs = request_values(m);
    lemma_str_list_wf(
        match m {
            Request::Spawn { command, .. } => command,
            _ => None,
        },
        63,
    );
    assert forall|i: int| 0 <= i < vs.len() implies json_wf(#[trigger] vs[i], 63) by {}
    lemma_object_wf(fs, vs, max_depth());
}

/// A request frame's JSON reads back as version 1 and the request.
pub proof fn lemma_request_round_trip(m: Request)
    requires
        request_ids_read_back(m),
    ensures
        client_frame_of_json(request_json(m)) == Ok::<(u16, Request), JsonError>((PROTOCOL_VERSION, m)),
{
    let fs = request_keys(m);
    let vs = request_values(m);
    let es = entries_of(fs, vs);
    lemma_keys_distinct(es, fs);
    lemma_request_tags(m);
    lemma_field_at(es, 0, Field::Version);
    lemma_field_at(es, 1, Field::Type);
    let tag = request_tag(m);
    match m {
        Request::Hello { .. } => {
            lemma_field_at(es, 2, Field::ClientId);
        },
        Request::Spawn { command, .. } => {
            lemma_field_at(es, 2, Field::TerminalId);
            lemma_field_at(es, 3, Field::WindowId);
            lemma_field_at(es, 4, Field::WorkspacePath);
            lemma_field_at(es, 5, Field::Shell);
            lemma_field_at(es, 6, Field::Command);
            if let Some(l) = command {
                lemma_str_items_round_trip(l);
            }
        },
        Request::Input { .. } => {
            lemma_field_at(es, 2, Field::TerminalId);
            lemma_field_at(es, 3, Field::DataBase64);
        },
        Request::Resize { .. } => {
            lemma_field_at(es, 2, Field::TerminalId);
            lemma_field_at(es, 3, Field::Cols);
            lemma_field_at(es, 4, Field::Rows);
        },
        Request::Capture { .. } => {
            lemma_field_at(es, 2, Field::TerminalId);
            lemma_field_at(es, 3, Field::Lines);
        },
        Request::Attach { .. } | Request::Terminate { .. } | Request::Detach { .. } => {
            lemma_field_at(es, 2, Field::TerminalId);
        },
        _ => {},
    }
}

/// The frame text of a JSON text: the JSON, then a newline.
proof fn lemma_trim_framed(text: Seq<char>)
    requires
        text.len() > 0,
        text.last() != '\n',
    ensures
        trim_newlines(text.push('\n')) == text,
{
    assert(trim_newlines(text) == text);
    assert(text.push('\n').drop_last() =~= text);
}


proof fn lemma_summary_round_trip(s: Summary)
    requires
        id_reads_back(s.terminal_id.value),
    ensures
        summary_of_json(summary_json(s)) == Ok::<Summary, JsonError>(s),
{
    let fs = summary_keys();
    let es = entries_of(fs, seq![id_j(s.terminal_id.value), Json::Str(s.status)]);
    lemma_keys_distinct(es, fs);
    lemma_field_at(es, 0, Field::TerminalId);
    lemma_field_at(es, 1, Field::Status);
}

proof fn lemma_summaries_round_trip(l: Seq<Summary>)
    requires
        summaries_ids_read_back(l),
    ensures
        summaries_of(l.map_values(|s: Summary| summary_json(s))) == Ok::<Seq<Summary>, JsonError>(l),
    decreases l.len(),
{
    if l.len() > 0 {
        let items = l.map_values(|s: Summary| summary_json(s));
        assert(items.drop_last() =~= l.drop_last().map_values(|s: Summary| summary_json(s)));
        lemma_summaries_round_trip(l.drop_last());
        lemma_summary_round_trip(l.last());
        assert(items.last() == summary_json(l.last()));
        assert(l.drop_last().push(l.last()) =~= l);
    } else {
        assert(l =~= Seq::<Summary>::empty());
    }
}

proof fn lemma_summaries_wf(l: Seq<Summary>, d: nat)
    requires
        d > 1,
    ensures
        json_wf(summaries_json(l), d),
{
    let items = l.map_values(|s: Summary| summary_json(s));
    assert forall|i: int| 0 <= i < items.len() implies json_wf(#[trigger] items[i], (d - 1) as nat) by {
        let s = l[i];
        let vs = seq![id_j(s.terminal_id.value), Json::Str(s.status)];
        assert forall|k: int| 0 <= k < vs.len() implies json_wf(#[trigger] vs[k], (d - 2) as nat) by {}
        lemma_object_wf(summary_keys(), vs, (d - 1) as nat);
    }
}

/// Event frames are well-formed JSON.
pub proof fn lemma_event_json_wf(m: Event)
    ensures
        json_wf(event_json(m), max_depth()),
{
    let fs = event_keys(m);
    let vs = event_values(m);
    match m {
        Event::Status { sessions, .. } => lemma_summaries_wf(sessions, 63),
        Event::SessionList { sessions } => lemma_summaries_wf(sessions, 63),
        _ => {},
    }
    assert forall|i: int| 0 <= i < vs.len() implies json_wf(#[trigger] vs[i], 63) by {}
    lemma_object_wf(fs, vs, max_depth());
}

/// An event frame's JSON reads back as version 1 and the event.
pub proof fn lemma_event_round_trip(m: Event)
    requires
        event_ids_read_back(m),
    ensures
        server_frame_of_json(event_json(m)) == Ok::<(u16, Event), JsonError>((PROTOCOL_VERSION, m)),
{
    let fs = event_keys(m);
    let vs = event_values(m);
    let es = entries_of(fs, vs);
    lemma_keys_distinct(es, fs);
    lemma_event_tags(m);
    lemma_field_at(es, 0, Field::Version);
    lemma_field_at(es, 1, Field::Type);
    match m {
        Event::Ack { .. } => {
            lemma_field_at(es, 2, Field::Message);
        },
        Event::HelloAck { .. } => {
            lemma_field_at(es, 2, Field::ServerId);
        },
        Event::Status { sessions, .. } => {
            lemma_field_at(es, 2, Field::ServerId);
            lemma_field_at(es, 3, Field::Pid);
            lemma_field_at(es, 4, Field::Sessions);
            lemma_summaries_round_trip(sessions);
        },
        Event::SessionList { sessions } => {
            lemma_field_at(es, 2, Field::Sessions);
            lemma_summaries_round_trip(sessions);
        },
        Event::Spawned { .. } => {
            lemma_field_at(es, 2, Field::TerminalId);
            lemma_field_at(es, 3, Field::ProcessId);
        },
        Event::Snapshot { .. } => {
            lemma_field_at(es, 2, Field::TerminalId);
            lemma_field_at(es, 3, Field::Cols);
            lemma_field_at(es, 4, Field::Rows);
            lemma_field_at(es, 5, Field::Text);
        },
        Event::Output { .. } => {
            lemma_field_at(es, 2, Field::TerminalId);
            lemma_field_at(es, 3, Field::Sequence);
            lemma_field_at(es, 4, Field::DataBase64);
        },
        Event::Exit { .. } => {
            lemma_field_at(es, 2, Field::TerminalId);
            lemma_field_at(es, 3, Field::ExitCode);
        },
        Event::Error { .. } => {
            lemma_field_at(es, 2, Field::Code);
            lemma_field_at(es, 3, Field::Message);
        },
    }
}


// ---------------------------------------------------------------------------
// Building and reading frames.

/// An object built by pushing, in order, entries named by `fs` holding `vs`.
pub proof fn lemma_object_is(es: Vec<(String, JsonValue)>, fs: Seq<Field>, vs: Seq<Json>)
    requires
        es@.len() == fs.len(),
        fs.len() == vs.len(),
        forall|i: int|
            0 <= i < fs.len() ==> (#[trigger] es@[i]).0@ == fs[i].spec_name() && es@[i].1@ == vs[i],
    ensures
        JsonValue::Object(es)@ == Json::Object(entries_of(fs, vs)),
{
    lemma_object_model(es);
    assert(entries_model(es@) =~= entries_of(fs, vs));
}

/// The `version` and `type` entries of a frame.
fn header(tag: &str) -> (es: Vec<(String, JsonValue)>)
    ensures
        es@.len() == 2,
        es@[0].0@ == Field::Version.spec_name(),
        es@[0].1@ == Json::UInt(PROTOCOL_VERSION as u64),
        es@[1].0@ == Field::Type.spec_name(),
        es@[1].1@ == Json::Str(tag@),
{
    let mut es: Vec<(String, JsonValue)> = Vec::new();
    es.push(entry(Field::Version, JsonValue::UInt(PROTOCOL_VERSION as u64)));
    es.push(entry(Field::Type, JsonValue::Str(tag.to_owned())));
    es
}

/// The JSON object of a request frame.
fn request_to_json(r: &ClientRequest) -> (j: JsonValue)
    ensures
        j@ == request_json(r@),
        request_ids_read_back(r@),
{
    let mut es: Vec<(String, JsonValue)>;
    match r {
        ClientRequest::Hello { client_id } => {
            es = header("hello");
            es.push(entry(Field::ClientId, str_json(client_id)));
        },
        ClientRequest::Spawn { terminal_id, window_id, workspace_path, shell, command } => {
            es = header("spawn");
            es.push(entry(Field::TerminalId, uuid_json(terminal_id.value)));
            es.push(entry(Field::WindowId, uuid_json(window_id.value)));
            es.push(entry(Field::WorkspacePath, str_json(workspace_path)));
            es.push(entry(Field::Shell, opt_str_json(shell)));
            es.push(entry(Field::Command, opt_str_list_json(command)));
        },
        ClientRequest::Attach { terminal_id } => {
            es = header("attach");
            es.push(entry(Field::TerminalId, uuid_json(terminal_id.value)));
        },
        ClientRequest::Input { terminal_id, data_base64 } => {
            es = header("input");
            es.push(entry(Field::TerminalId, uuid_json(terminal_id.value)));
            es.push(entry(Field::DataBase64, str_json(data_base64)));
        },
        ClientRequest::Resize { terminal_id, cols, rows } => {
            es = header("resize");
            es.push(entry(Field::TerminalId, uuid_json(terminal_id.value)));
            es.push(entry(Field::Cols, JsonValue::UInt(*cols as u64)));
            es.push(entry(Field::Rows, JsonValue::UInt(*rows as u64)));
        },
        ClientRequest::Capture { terminal_id, lines } => {
            es = header("capture");
            es.push(entry(Field::TerminalId, uuid_json(terminal_id.value)));
            let l = match lines {
                Some(n) => JsonValue::UInt(*n as u64),
                None => JsonValue::Null,
            };
            es.push(entry(Field::Lines, l));
        },
        ClientRequest::Terminate { terminal_id } => {
            es = header("terminate");
            es.push(entry(Field::TerminalId, uuid_json(terminal_id.value)));
        },
        ClientRequest::Detach { terminal_id } => {
            es = header("detach");
            es.push(entry(Field::TerminalId, uuid_json(terminal_id.value)));
        },
        ClientRequest::Shutdown => {
            es = header("shutdown");
        },
        ClientRequest::List => {
            es = header("list");
        },
        ClientRequest::Status => {
            es = header("status");
        },
    }
    proof {
        lemma_object_is(es, request_keys(r@), request_values(r@));
    }
    JsonValue::Object(es)
}

pub open spec fn fields_result(r: Result<ClientRequest, JsonError>) -> Result<Request, JsonError> {
    match r {
        Ok(m) => Ok(m@),
        Err(e) => Err(e),
    }
}

/// The request a tag and an object's entries decode to.
fn request_from_entries(es: &Vec<(String, JsonValue)>, tag: &str) -> (r: Result<ClientRequest, JsonError>)
    ensures
        fields_result(r) == request_of_fields(entries_model(es@), tag@),
{
    if text_eq(tag, "hello") {
        match field_str(es, Field::ClientId) {
            Ok(c) => Ok(ClientRequest::Hello { client_id: c }),
            Err(e) => Err(e),
        }
    } else if text_eq(tag, "spawn") {
        let t = match field_uuid(es, Field::TerminalId) {
            Ok(t) => t,
            Err(e) => return Err(e),
        };
        let w = match field_uuid(es, Field::WindowId) {
            Ok(w) => w,
            Err(e) => return Err(e),
        };
        let p = match field_str(es, Field::WorkspacePath) {
            Ok(p) => p,
            Err(e) => return Err(e),
        };
        let sh = match field_opt_str(es, Field::Shell) {
            Ok(sh) => sh,
            Err(e) => return Err(e),
        };
        let c = match field_opt_str_list(es, Field::Command) {
            Ok(c) => c,
            Err(e) => return Err(e),
        };
        Ok(
            ClientRequest::Spawn {
                terminal_id: TerminalId { value: t },
                window_id: WindowId { value: w },
                workspace_path: p,
                shell: sh,
                command: c,
            },
        )
    } else if text_eq(tag, "attach") || text_eq(tag, "terminate") || text_eq(tag, "detach") {
        let t = match field_uuid(es, Field::TerminalId) {
            Ok(t) => TerminalId { value: t },
            Err(e) => return Err(e),
        };
        if text_eq(tag, "attach") {
            Ok(ClientRequest::Attach { terminal_id: t })
        } else if text_eq(tag, "terminate") {
            Ok(ClientRequest::Terminate { terminal_id: t })
        } else {
            Ok(ClientRequest::Detach { terminal_id: t })
        }
    } else if text_eq(tag, "input") {
        let t = match field_uuid(es, Field::TerminalId) {
            Ok(t) => t,
            Err(e) => return Err(e),
        };
        match field_str(es, Field::DataBase64) {
            Ok(d) => Ok(ClientRequest::Input { terminal_id: TerminalId { value: t }, data_base64: d }),
            Err(e) => Err(e),
        }
    } else if text_eq(tag, "resize") {
        let t = match field_uuid(es, Field::TerminalId) {
            Ok(t) => t,
            Err(e) => return Err(e),
        };
        let c = match field_uint(es, Field::Cols, 0xffff) {
            Ok(c) => c,
            Err(e) => return Err(e),
        };
        match field_uint(es, Field::Rows, 0xffff) {
            Ok(r) => Ok(
                ClientRequest::Resize { terminal_id: TerminalId { value: t }, cols: c as u16, rows: r as u16 },
            ),
            Err(e) => Err(e),
        }
    } else if text_eq(tag, "capture") {
        let t = match field_uuid(es, Field::TerminalId) {
            Ok(t) => t,
            Err(e) => return Err(e),
        };
        match field_opt_uint(es, Field::Lines, 0xffff) {
            Ok(l) => Ok(
                ClientRequest::Capture {
                    terminal_id: TerminalId { value: t },
                    lines: match l {
                        Some(n) => Some(n as u16),
                        None => None,
                    },
                },
            ),
            Err(e) => Err(e),
        }
    } else if text_eq(tag, "shutdown") {
        Ok(ClientRequest::Shutdown)
    } else if text_eq(tag, "list") {
        Ok(ClientRequest::List)
    } else if text_eq(tag, "status") {
        Ok(ClientRequest::Status)
    } else {
        Err(JsonError::UnknownVariant(Field::Type))
    }
}

/// The version and request that a frame's JSON holds.
fn client_frame_from_json(j: &JsonValue) -> (r: Result<(u16, ClientRequest), JsonError>)
    ensures
        match r {
            Ok((v, m)) => client_frame_of_json(j@) == Ok::<(u16, Request), JsonError>((v, m@)),
            Err(e) => client_frame_of_json(j@) == Err::<(u16, Request), JsonError>(e),
        },
{
    match j {
        JsonValue::Object(es) => {
            proof {
                lemma_object_model(*es);
            }
            let v = match field_uint(es, Field::Version, 0xffff) {
                Ok(v) => v,
                Err(e) => return Err(e),
            };
            let tag = match field_str(es, Field::Type) {
                Ok(t) => t,
                Err(e) => return Err(e),
            };
            match request_from_entries(es, tag.as_str()) {
                Ok(m) => Ok((v as u16, m)),
                Err(e) => Err(e),
            }
        },
        _ => Err(JsonError::NotAnObject),
    }
}

/// Encodes a request as one frame: its JSON object, then a newline. Encoding
/// cannot fail. A frame within `MAX_FRAME_BYTES` whose input payload (if any) is
/// acceptable decodes back to the request.
pub fn encode_client_frame(request: &ClientRequest) -> (r: Result<String, ProtocolError>)
    ensures
        r matches Ok(frame) && framed(frame@, json_written(request_json(request@))),
        r matches Ok(frame) && one_line(frame@),
        r matches Ok(frame) && (byte_len(frame@) <= MAX_FRAME_BYTES && request_payload(request@) is Ok
            ==> decode_client_spec(frame@) == Ok::<Request, ProtocolFault>(request@)),
{
    let j = request_to_json(request);
    let mut frame = write_json(&j);
    let ghost text = frame@;
    frame.append("\n");
    proof {
        reveal_strlit("\n");
        assert(frame@ =~= text.push('\n'));
        assert(frame@.drop_last() =~= text);
        lemma_request_json_wf(request@);
        lemma_trim_framed(text);
        lemma_request_round_trip(request@);
    }
    Ok(frame)
}

/// Decodes one client frame, as `decode_client_spec` says.
pub fn decode_client_frame(raw: &str) -> (r: Result<ClientRequest, ProtocolError>)
    ensures
        request_result(r) == decode_client_spec(raw@),
{
    if raw.len() > MAX_FRAME_BYTES {
        return Err(ProtocolError::FrameTooLarge { limit: MAX_FRAME_BYTES });
    }
    let body = frame_body(raw);
    let j = match parse_json(body.as_str()) {
        Some(j) => j,
        None => return Err(ProtocolError::Decode(JsonError::Syntax)),
    };
    let (version, request) = match client_frame_from_json(&j) {
        Ok(x) => x,
        Err(e) => return Err(ProtocolError::Decode(e)),
    };
    if version != PROTOCOL_VERSION {
        return Err(ProtocolError::UnsupportedVersion { version });
    }
    match request.input_data() {
        Err(e) => Err(e),
        Ok(_) => Ok(request),
    }
}


/// A summary's JSON object.
fn summary_to_json(s: &SessionSummary) -> (j: JsonValue)
    ensures
        j@ == summary_json(s@),
        id_reads_back(s.terminal_id.value),
{
    let mut es: Vec<(String, JsonValue)> = Vec::new();
    es.push(entry(Field::TerminalId, uuid_json(s.terminal_id.value)));
    es.push(entry(Field::Status, str_json(&s.status)));
    proof {
        lemma_object_is(es, summary_keys(), seq![id_j(s.terminal_id.value), Json::Str(s.status@)]);
    }
    JsonValue::Object(es)
}

/// The JSON array of summaries.
fn summaries_to_json(v: &Vec<SessionSummary>) -> (j: JsonValue)
    ensures
        j@ == summaries_json(summaries_view(v@)),
        summaries_ids_read_back(summaries_view(v@)),
{
    let mut items: Vec<JsonValue> = Vec::new();
    let mut i: usize = 0;
    while i < v.len()
        invariant
            i <= v@.len(),
            items@.len() == i,
            forall|k: int| 0 <= k < i ==> #[trigger] items@[k]@ == summary_json(v@[k]@),
            forall|k: int| 0 <= k < i ==> id_reads_back(#[trigger] v@[k].terminal_id.value),
        decreases v.len() - i,
    {
        items.push(summary_to_json(&v[i]));
        i = i + 1;
    }
    proof {
        lemma_array_model(items);
        assert(items_model(items@) =~= summaries_view(v@).map_values(|s: Summary| summary_json(s)));
        assert forall|k: int| 0 <= k < summaries_view(v@).len() implies id_reads_back(
            #[trigger] summaries_view(v@)[k].terminal_id.value,
        ) by {
            assert(summaries_view(v@)[k].terminal_id == v@[k].terminal_id);
        }
    }
    JsonValue::Array(items)
}

/// The JSON object of an event frame.
fn event_to_json(r: &ServerEvent) -> (j: JsonValue)
    ensures
        j@ == event_json(r@),
        event_ids_read_back(r@),
{
    let mut es: Vec<(String, JsonValue)>;
    match r {
        ServerEvent::Ack { message } => {
            es = header("ack");
            es.push(entry(Field::Message, str_json(message)));
        },
        ServerEvent::HelloAck { server_id } => {
            es = header("hello_ack");
            es.push(entry(Field::ServerId, str_json(server_id)));
        },
        ServerEvent::Status { server_id, pid, sessions } => {
            es = header("status");
            es.push(entry(Field::ServerId, str_json(server_id)));
            es.push(entry(Field::Pid, JsonValue::UInt(*pid as u64)));
            es.push(entry(Field::Sessions, summaries_to_json(sessions)));
        },
        ServerEvent::SessionList { sessions } => {
            es = header("session_list");
            es.push(entry(Field::Sessions, summaries_to_json(sessions)));
        },
        ServerEvent::Spawned { terminal_id, process_id } => {
            es = header("spawned");
            es.push(entry(Field::TerminalId, uuid_json(terminal_id.value)));
            let p = match process_id {
                Some(n) => JsonValue::UInt(*n as u64),
                None => JsonValue::Null,
            };
            es.push(entry(Field::ProcessId, p));
        },
        ServerEvent::Snapshot { terminal_id, cols, rows, text } => {
            es = header("snapshot");
            es.push(entry(Field::TerminalId, uuid_json(terminal_id.value)));
            es.push(entry(Field::Cols, JsonValue::UInt(*cols as u64)));
            es.push(entry(Field::Rows, JsonValue::UInt(*rows as u64)));
            es.push(entry(Field::Text, str_json(text)));
        },
        ServerEvent::Output { terminal_id, seq, data_base64 } => {
            es = header("output");
            es.push(entry(Field::TerminalId, uuid_json(terminal_id.value)));
            es.push(entry(Field::Sequence, JsonValue::UInt(*seq)));
            es.push(entry(Field::DataBase64, str_json(data_base64)));
        },
        ServerEvent::Exit { terminal_id, exit_code } => {
            es = header("exit");
            es.push(entry(Field::TerminalId, uuid_json(terminal_id.value)));
            es.push(entry(Field::ExitCode, opt_i32_json(*exit_code)));
        },
        ServerEvent::Error { code, message } => {
            es = header("error");
            es.push(entry(Field::Code, str_json(code)));
            es.push(entry(Field::Message, str_json(message)));
        },
    }
    proof {
        lemma_object_is(es, event_keys(r@), event_values(r@));
    }
    JsonValue::Object(es)
}

/// The summary an object decodes to.
fn summary_from_json(j: &JsonValue) -> (r: Result<SessionSummary, JsonError>)
    ensures
        match r {
            Ok(s) => summary_of_json(j@) == Ok::<Summary, JsonError>(s@),
            Err(e) => summary_of_json(j@) == Err::<Summary, JsonError>(e),
        },
{
    match j {
        JsonValue::Object(es) => {
            proof {
                lemma_object_model(*es);
            }
            let t = match field_uuid(es, Field::TerminalId) {
                Ok(t) => t,
                Err(e) => return Err(e),
            };
            match field_str(es, Field::Status) {
                Ok(s) => Ok(SessionSummary { terminal_id: TerminalId { value: t }, status: s }),
                Err(e) => Err(e),
            }
        },
        _ => Err(JsonError::NotAnObject),
    }
}

/// Once a prefix of the items is refused, so are the items.
proof fn lemma_summaries_prefix_err(m: Seq<Json>, k: int)
    requires
        0 <= k <= m.len(),
        summaries_of(m.take(k)) is Err,
    ensures
        summaries_of(m) == summaries_of(m.take(k)),
    decreases m.len() - k,
{
    if k == m.len() {
        assert(m.take(k) =~= m);
    } else {
        assert(m.drop_last().take(k) =~= m.take(k));
        lemma_summaries_prefix_err(m.drop_last(), k);
    }
}

/// The summaries an array's items decode to.
fn summaries_from_items(items: &Vec<JsonValue>) -> (r: Result<Vec<SessionSummary>, JsonError>)
    ensures
        match r {
            Ok(v) => summaries_of(items_model(items@)) == Ok::<Seq<Summary>, JsonError>(summaries_view(v@)),
            Err(e) => summaries_of(items_model(items@)) == Err::<Seq<Summary>, JsonError>(e),
        },
{
    let ghost m = items_model(items@);
    let mut out: Vec<SessionSummary> = Vec::new();
    let mut i: usize = 0;
    assert(m.take(0) =~= Seq::<Json>::empty());
    assert(summaries_view(out@) =~= Seq::<Summary>::empty());
    while i < items.len()
        invariant
            i <= items@.len(),
            m == items_model(items@),
            summaries_of(m.take(i as int)) == Ok::<Seq<Summary>, JsonError>(summaries_view(out@)),
        decreases items.len() - i,
    {
        assert(m.take(i + 1).drop_last() =~= m.take(i as int));
        assert(m.take(i + 1).last() == items@[i as int]@);
        match summary_from_json(&items[i]) {
            Ok(s) => {
                let ghost prev = summaries_view(out@);
                let ghost sv = s@;
                assert(summaries_of(m.take(i + 1)) == Ok::<Seq<Summary>, JsonError>(prev.push(sv)));
                out.push(s);
                assert(summaries_view(out@) =~= prev.push(sv));
            },
            Err(e) => {
                proof {
                    lemma_summaries_prefix_err(m, i + 1);
                }
                return Err(e);
            },
        }
        i = i + 1;
    }
    assert(m.take(i as int) =~= m);
    Ok(out)
}

/// A required array-of-summaries field.
fn field_summaries(es: &Vec<(String, JsonValue)>, f: Field) -> (r: Result<Vec<SessionSummary>, JsonError>)
    ensures
        match r {
            Ok(v) => dec_summaries(entries_model(es@), f) == Ok::<Seq<Summary>, JsonError>(summaries_view(v@)),
            Err(e) => dec_summaries(entries_model(es@), f) == Err::<Seq<Summary>, JsonError>(e),
        },
{
    match crate::json::get_field(es, f.name()) {
        None => Err(JsonError::MissingField(f)),
        Some(v) => match v {
            JsonValue::Array(items) => {
                proof {
                    lemma_array_model(*items);
                }
                summaries_from_items(items)
            },
            _ => Err(JsonError::WrongType(f)),
        },
    }
}

pub open spec fn event_fields_result(r: Result<ServerEvent, JsonError>) -> Result<Event, JsonError> {
    match r {
        Ok(m) => Ok(m@),
        Err(e) => Err(e),
    }
}

/// The event a tag and an object's entries decode to.
fn event_from_entries(es: &Vec<(String, JsonValue)>, tag: &str) -> (r: Result<ServerEvent, JsonError>)
    ensures
        event_fields_result(r) == event_of_fields(entries_model(es@), tag@),
{
    if text_eq(tag, "ack") {
        match field_str(es, Field::Message) {
            Ok(m) => Ok(ServerEvent::Ack { message: m }),
            Err(e) => Err(e),
        }
    } else if text_eq(tag, "hello_ack") {
        match field_str(es, Field::ServerId) {
            Ok(s) => Ok(ServerEvent::HelloAck { server_id: s }),
            Err(e) => Err(e),
        }
    } else if text_eq(tag, "status") {
        let s = match field_str(es, Field::ServerId) {
            Ok(s) => s,
            Err(e) => return Err(e),
        };
        let p = match field_uint(es, Field::Pid, 0xffff_ffff) {
            Ok(p) => p,
            Err(e) => return Err(e),
        };
        match field_summaries(es, Field::Sessions) {
            Ok(l) => Ok(ServerEvent::Status { server_id: s, pid: p as u32, sessions: l }),
            Err(e) => Err(e),
        }
    } else if text_eq(tag, "session_list") {
        match field_summaries(es, Field::Sessions) {
            Ok(l) => Ok(ServerEvent::SessionList { sessions: l }),
            Err(e) => Err(e),
        }
    } else if text_eq(tag, "spawned") {
        let t = match field_uuid(es, Field::TerminalId) {
            Ok(t) => t,
            Err(e) => return Err(e),
        };
        match field_opt_uint(es, Field::ProcessId, 0xffff_ffff) {
            Ok(p) => Ok(
                ServerEvent::Spawned {
                    terminal_id: TerminalId { value: t },
                    process_id: match p {
                        Some(n) => Some(n as u32),
                        None => None,
                    },
                },
            ),
            Err(e) => Err(e),
        }
    } else if text_eq(tag, "snapshot") {
        let t = match field_uuid(es, Field::TerminalId) {
            Ok(t) => t,
            Err(e) => return Err(e),
        };
        let c = match field_uint(es, Field::Cols, 0xffff) {
            Ok(c) => c,
            Err(e) => return Err(e),
        };
        let rows = match field_uint(es, Field::Rows, 0xffff) {
            Ok(r) => r,
            Err(e) => return Err(e),
        };
        match field_str(es, Field::Text) {
            Ok(x) => Ok(
                ServerEvent::Snapshot {
                    terminal_id: TerminalId { value: t },
                    cols: c as u16,
                    rows: rows as u16,
                    text: x,
                },
            ),
            Err(e) => Err(e),
        }
    } else if text_eq(tag, "output") {
        let t = match field_uuid(es, Field::TerminalId) {
            Ok(t) => t,
            Err(e) => return Err(e),
        };
        let n = match field_uint(es, Field::Sequence, 0xffff_ffff_ffff_ffff) {
            Ok(n) => n,
            Err(e) => return Err(e),
        };
        match field_str(es, Field::DataBase64) {
            Ok(d) => Ok(ServerEvent::Output { terminal_id: TerminalId { value: t }, seq: n, data_base64: d }),
            Err(e) => Err(e),
        }
    } else if text_eq(tag, "exit") {
        let t = match field_uuid(es, Field::TerminalId) {
            Ok(t) => t,
            Err(e) => return Err(e),
        };
        match field_opt_i32(es, Field::ExitCode) {
            Ok(c) => Ok(ServerEvent::Exit { terminal_id: TerminalId { value: t }, exit_code: c }),
            Err(e) => Err(e),
        }
    } else if text_eq(tag, "error") {
        let c = match field_str(es, Field::Code) {
            Ok(c) => c,
            Err(e) => return Err(e),
        };
        match field_str(es, Field::Message) {
            Ok(m) => Ok(ServerEvent::Error { code: c, message: m }),
            Err(e) => Err(e),
        }
    } else {
        Err(JsonError::UnknownVariant(Field::Type))
    }
}

/// The version and event that a frame's JSON holds.
fn server_frame_from_json(j: &JsonValue) -> (r: Result<(u16, ServerEvent), JsonError>)
    ensures
        match r {
            Ok((v, m)) => server_frame_of_json(j@) == Ok::<(u16, Event), JsonError>((v, m@)),
            Err(e) => server_frame_of_json(j@) == Err::<(u16, Event), JsonError>(e),
        },
{
    match j {
        JsonValue::Object(es) => {
            proof {
                lemma_object_model(*es);
            }
            let v = match field_uint(es, Field::Version, 0xffff) {
                Ok(v) => v,
                Err(e) => return Err(e),
            };
            let tag = match field_str(es, Field::Type) {
                Ok(t) => t,
                Err(e) => return Err(e),
            };
            match event_from_entries(es, tag.as_str()) {
                Ok(m) => Ok((v as u16, m)),
                Err(e) => Err(e),
            }
        },
        _ => Err(JsonError::NotAnObject),
    }
}

/// Encodes an event as one frame: its JSON object, then a newline. Encoding
/// cannot fail. A frame within `MAX_FRAME_BYTES` whose output payload (if any) is
/// acceptable decodes back to the event.
pub fn encode_server_frame(event: &ServerEvent) -> (r: Result<String, ProtocolError>)
    ensures
        r matches Ok(frame) && framed(frame@, json_written(event_json(event@))),
        r matches Ok(frame) && one_line(frame@),
        r matches Ok(frame) && (byte_len(frame@) <= MAX_FRAME_BYTES && event_payload(event@) is Ok
            ==> decode_server_spec(frame@) == Ok::<Event, ProtocolFault>(event@)),
{
    let j = event_to_json(event);
    let mut frame = write_json(&j);
    let ghost text = frame@;
    frame.append("\n");
    proof {
        reveal_strlit("\n");
        assert(frame@ =~= text.push('\n'));
        assert(frame@.drop_last() =~= text);
        lemma_event_json_wf(event@);
        lemma_trim_framed(text);
        lemma_event_round_trip(event@);
    }
    Ok(frame)
}

/// Decodes one server frame, as `decode_server_spec` says.
pub fn decode_server_frame(raw: &str) -> (r: Result<ServerEvent, ProtocolError>)
    ensures
        event_result(r) == decode_server_spec(raw@),
{
    if raw.len() > MAX_FRAME_BYTES {
        return Err(ProtocolError::FrameTooLarge { limit: MAX_FRAME_BYTES });
    }
    let body = frame_body(raw);
    let j = match parse_json(body.as_str()) {
        Some(j) => j,
        None => return Err(ProtocolError::Decode(JsonError::Syntax)),
    };
    let (version, event) = match server_frame_from_json(&j) {
        Ok(x) => x,
        Err(e) => return Err(ProtocolError::Decode(e)),
    };
    if version != PROTOCOL_VERSION {
        return Err(ProtocolError::UnsupportedVersion { version });
    }
    match event.output_data() {
        Err(e) => Err(e),
        Ok(_) => Ok(event),
    }
}

} // verus!
