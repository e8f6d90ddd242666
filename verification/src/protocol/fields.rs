//! What a frame's named fields hold: each field of a request or event is carried
//! under its own name, in both directions.

use vstd::prelude::*;

use super::codec::{
    client_frame_of_json, event_ids_read_back, event_json, lemma_event_round_trip, lemma_request_round_trip,
    request_ids_read_back, request_json, server_frame_of_json, summaries_of, summary_of_json,
};
use super::model::{Event, Request, Summary, PROTOCOL_VERSION};
use crate::decode::{i32_of_json, str_items, JsonError};
use crate::ids::uuid_parsed;
use crate::json::{spec_field, Json};

verus! {

/// The value an object holds under `key`: its first entry with that name.
pub open spec fn json_field(j: Json, key: Seq<char>) -> Option<Json> {
    match j {
        Json::Object(es) => spec_field(es, key),
        _ => None,
    }
}

/// The object holds under `key` a text naming the identifier `id`.
pub open spec fn names_id(j: Json, key: Seq<char>, id: u128) -> bool {
    json_field(j, key) matches Some(Json::Str(s)) && uuid_parsed(s) == Some(id)
}

/// The object holds `text` under `key`.
pub open spec fn holds_text(j: Json, key: Seq<char>, text: Seq<char>) -> bool {
    json_field(j, key) == Some(Json::Str(text))
}

/// The object holds the number `n` under `key`.
pub open spec fn holds_number(j: Json, key: Seq<char>, n: u64) -> bool {
    json_field(j, key) == Some(Json::UInt(n))
}

/// An optional value: present under `key` when there is one, else absent or null.
pub open spec fn holds_optional(j: Json, key: Seq<char>, o: Option<Json>) -> bool {
    match o {
        Some(x) => json_field(j, key) == Some(x),
        None => json_field(j, key) is None || json_field(j, key) == Some(Json::Null),
    }
}

/// The object holds under `key` an array of the texts `l`, in order.
pub open spec fn holds_texts(j: Json, key: Seq<char>, l: Seq<Seq<char>>) -> bool {
    json_field(j, key) matches Some(Json::Array(items)) && items.len() == l.len() && forall|i: int|
        0 <= i < l.len() ==> items[i] == Json::Str(#[trigger] l[i])
}

/// The object holds under `key` an array of one object per session, in order,
/// each naming the session's terminal under "terminal_id" and its status under
/// "status".
pub open spec fn holds_sessions(j: Json, key: Seq<char>, l: Seq<Summary>) -> bool {
    json_field(j, key) matches Some(Json::Array(items)) && items.len() == l.len() && forall|i: int|
        0 <= i < l.len() ==> names_id(#[trigger] items[i], "terminal_id"@, l[i].terminal_id.value)
            && holds_text(items[i], "status"@, l[i].status)
}

/// A request's frame object: its type under "type", and each of its fields
/// under that field's own name.
pub open spec fn request_in_json(j: Json, m: Request) -> bool {
    match m {
        Request::Hello { client_id } => holds_text(j, "type"@, "hello"@) && holds_text(
            j,
            "client_id"@,
            client_id,
        ),
        Request::Spawn { terminal_id, window_id, workspace_path, shell, command } => {
            &&& holds_text(j, "type"@, "spawn"@)
            &&& names_id(j, "terminal_id"@, terminal_id.value)
            &&& names_id(j, "window_id"@, window_id.value)
            &&& holds_text(j, "workspace_path"@, workspace_path)
            &&& holds_optional(
                j,
                "shell"@,
                match shell {
                    Some(s) => Some(Json::Str(s)),
                    None => None,
                },
            )
            &&& match command {
                Some(l) => holds_texts(j, "command"@, l),
                None => holds_optional(j, "command"@, None),
            }
        },
        Request::Attach { terminal_id } => holds_text(j, "type"@, "attach"@) && names_id(
            j,
            "terminal_id"@,
            terminal_id.value,
        ),
        Request::Input { terminal_id, data_base64 } => {
            &&& holds_text(j, "type"@, "input"@)
            &&& names_id(j, "terminal_id"@, terminal_id.value)
            &&& holds_text(j, "data_base64"@, data_base64)
        },
        Request::Resize { terminal_id, cols, rows } => {
            &&& holds_text(j, "type"@, "resize"@)
            &&& names_id(j, "terminal_id"@, terminal_id.value)
            &&& holds_number(j, "cols"@, cols as u64)
            &&& holds_number(j, "rows"@, rows as u64)
        },
        Request::Capture { terminal_id, lines } => {
            &&& holds_text(j, "type"@, "capture"@)
            &&& names_id(j, "terminal_id"@, terminal_id.value)
            &&& holds_optional(
                j,
                "lines"@,
                match lines {
                    Some(n) => Some(Json::UInt(n as u64)),
                    None => None,
                },
            )
        },
        Request::Terminate { terminal_id } => holds_text(j, "type"@, "terminate"@) && names_id(
            j,
            "terminal_id"@,
            terminal_id.value,
        ),
        Request::Detach { terminal_id } => holds_text(j, "type"@, "detach"@) && names_id(
            j,
            "terminal_id"@,
            terminal_id.value,
        ),
        Request::Shutdown => holds_text(j, "type"@, "shutdown"@),
        Request::List => holds_text(j, "type"@, "list"@),
        Request::Status => holds_text(j, "type"@, "status"@),
    }
}

/// An event's frame object: its type under "type", and each of its fields
/// under that field's own name.
pub open spec fn event_in_json(j: Json, m: Event) -> bool {
    match m {
        Event::Ack { message } => holds_text(j, "type"@, "ack"@) && holds_text(j, "message"@, message),
        Event::HelloAck { server_id } => holds_text(j, "type"@, "hello_ack"@) && holds_text(
            j,
            "server_id"@,
            server_id,
        ),
        Event::Status { server_id, pid, sessions } => {
            &&& holds_text(j, "type"@, "status"@)
            &&& holds_text(j, "server_id"@, server_id)
            &&& holds_number(j, "pid"@, pid as u64)
            &&& holds_sessions(j, "sessions"@, sessions)
        },
        Event::SessionList { sessions } => holds_text(j, "type"@, "session_list"@) && holds_sessions(
            j,
            "sessions"@,
            sessions,
        ),
        Event::Spawned { terminal_id, process_id } => {
            &&& holds_text(j, "type"@, "spawned"@)
            &&& names_id(j, "terminal_id"@, terminal_id.value)
            &&& holds_optional(
                j,
                "process_id"@,
                match process_id {
                    Some(n) => Some(Json::UInt(n as u64)),
                    None => None,
                },
            )
        },
        Event::Snapshot { terminal_id, cols, rows, text } => {
            &&& holds_text(j, "type"@, "snapshot"@)
            &&& names_id(j, "terminal_id"@, terminal_id.value)
            &&& holds_number(j, "cols"@, cols as u64)
            &&& holds_number(j, "rows"@, rows as u64)
            &&& holds_text(j, "text"@, text)
        },
        Event::Output { terminal_id, seq, data_base64 } => {
            &&& holds_text(j, "type"@, "output"@)
            &&& names_id(j, "terminal_id"@, terminal_id.value)
            &&& holds_number(j, "seq"@, seq)
            &&& holds_text(j, "data_base64"@, data_base64)
        },
        Event::Exit { terminal_id, exit_code } => {
            &&& holds_text(j, "type"@, "exit"@)
            &&& names_id(j, "terminal_id"@, terminal_id.value)
            &&& match exit_code {
                Some(n) => json_field(j, "exit_code"@) matches Some(x) && i32_of_json(x) == Some(n),
                None => holds_optional(j, "exit_code"@, None),
            }
        },
        Event::Error { code, message } => {
            &&& holds_text(j, "type"@, "error"@)
            &&& holds_text(j, "code"@, code)
            &&& holds_text(j, "message"@, message)
        },
    }
}

proof fn lemma_str_items_hold(items: Seq<Json>, l: Seq<Seq<char>>)
    requires
        str_items(items) == Some(l),
    ensures
        items.len() == l.len(),
        forall|i: int| 0 <= i < l.len() ==> items[i] == Json::Str(#[trigger] l[i]),
    decreases items.len(),
{
    if items.len() > 0 {
        let prev = str_items(items.drop_last()).unwrap();
        lemma_str_items_hold(items.drop_last(), prev);
        assert forall|i: int| 0 <= i < l.len() implies items[i] == Json::Str(#[trigger] l[i]) by {
            if i < l.len() - 1 {
                assert(items[i] == items.drop_last()[i]);
            }
        }
    }
}

proof fn lemma_summaries_hold(items: Seq<Json>, l: Seq<Summary>)
    requires
        summaries_of(items) == Ok::<Seq<Summary>, JsonError>(l),
    ensures
        items.len() == l.len(),
        forall|i: int|
            0 <= i < l.len() ==> names_id(#[trigger] items[i], "terminal_id"@, l[i].terminal_id.value)
                && holds_text(items[i], "status"@, l[i].status),
    decreases items.len(),
{
    if items.len() > 0 {
        let prev = summaries_of(items.drop_last())->Ok_0;
        lemma_summaries_hold(items.drop_last(), prev);
        assert forall|i: int| 0 <= i < l.len() implies names_id(
            #[trigger] items[i],
            "terminal_id"@,
            l[i].terminal_id.value,
        ) && holds_text(items[i], "status"@, l[i].status) by {
            if i < l.len() - 1 {
                assert(items[i] == items.drop_last()[i]);
            }
        }
    }
}

/// Decoding a request frame reads each field of the request from the frame's
/// field of that name: the version from "version", the kind from "type", a
/// resize's columns from "cols" and rows from "rows", and so on.
pub proof fn law_request_fields_decoded(j: Json, v: u16, m: Request)
    requires
        client_frame_of_json(j) == Ok::<(u16, Request), JsonError>((v, m)),
    ensures
        holds_number(j, "version"@, v as u64),
        request_in_json(j, m),
{
    if let Json::Object(es) = j {
        if let Request::Spawn { command: Some(l), .. } = m {
            if let Some(Json::Array(items)) = spec_field(es, "command"@) {
                lemma_str_items_hold(items, l);
            }
        }
    }
}

/// Encoding a request writes each of its fields under the field's own name;
/// so, with the decoding law, a frame read back gives every field its own value.
pub proof fn law_request_fields_encoded(m: Request)
    requires
        request_ids_read_back(m),
    ensures
        holds_number(request_json(m), "version"@, PROTOCOL_VERSION as u64),
        request_in_json(request_json(m), m),
{
    lemma_request_round_trip(m);
    law_request_fields_decoded(request_json(m), PROTOCOL_VERSION, m);
}

/// Decoding an event frame reads each field of the event from the frame's field
/// of that name: a snapshot's columns from "cols" and rows from "rows", and so on.
pub proof fn law_event_fields_decoded(j: Json, v: u16, m: Event)
    requires
        server_frame_of_json(j) == Ok::<(u16, Event), JsonError>((v, m)),
    ensures
        holds_number(j, "version"@, v as u64),
        event_in_json(j, m),
{
    if let Json::Object(es) = j {
        match m {
            Event::Status { sessions, .. } => {
                if let Some(Json::Array(items)) = spec_field(es, "sessions"@) {
                    lemma_summaries_hold(items, sessions);
                }
            },
            Event::SessionList { sessions } => {
                if let Some(Json::Array(items)) = spec_field(es, "sessions"@) {
                    lemma_summaries_hold(items, sessions);
                }
            },
            _ => {},
        }
    }
}

/// Encoding an event writes each of its fields under the field's own name.
pub proof fn law_event_fields_encoded(m: Event)
    requires
        event_ids_read_back(m),
    ensures
        holds_number(event_json(m), "version"@, PROTOCOL_VERSION as u64),
        event_in_json(event_json(m), m),
{
    lemma_event_round_trip(m);
    law_event_fields_decoded(event_json(m), PROTOCOL_VERSION, m);
}

} // verus!
