//! The requests a client sends to the broker and the events the broker sends back.

use vstd::prelude::*;

use super::error::ProtocolError;
use super::payload::{b64_decoded, b64_encoded, bytes_result, decode_base64, encode_base64, payload_check,
    MAX_BINARY_PAYLOAD_BYTES};
use super::error::ProtocolFault;
use crate::decode::{opt_str_view, opt_strings_view};
use crate::ids::{TerminalId, WindowId};

verus! {

/// The protocol version that frames carry.
pub const PROTOCOL_VERSION: u16 = 1;

/// A request from a client to the broker.
#[derive(Clone, Debug, PartialEq, Eq)]
pub enum ClientRequest {
    Hello { client_id: String },
    /// Starts a terminal in `workspace_path`, running `command` when given and
    /// else `shell` (or the broker's default shell).
    Spawn {
        terminal_id: TerminalId,
        window_id: WindowId,
        workspace_path: String,
        shell: Option<String>,
        command: Option<Vec<String>>,
    },
    Attach { terminal_id: TerminalId },
    /// Input bytes for the terminal, as standard base64.
    Input { terminal_id: TerminalId, data_base64: String },
    Resize { terminal_id: TerminalId, cols: u16, rows: u16 },
    Capture { terminal_id: TerminalId, lines: Option<u16> },
    Terminate { terminal_id: TerminalId },
    Detach { terminal_id: TerminalId },
    Shutdown,
    List,
    Status,
}

/// The model of a request: texts as character sequences.
pub enum Request {
    Hello { client_id: Seq<char> },
    Spawn {
        terminal_id: TerminalId,
        window_id: WindowId,
        workspace_path: Seq<char>,
        shell: Option<Seq<char>>,
        command: Option<Seq<Seq<char>>>,
    },
    Attach { terminal_id: TerminalId },
    Input { terminal_id: TerminalId, data_base64: Seq<char> },
    Resize { terminal_id: TerminalId, cols: u16, rows: u16 },
    Capture { terminal_id: TerminalId, lines: Option<u16> },
    Terminate { terminal_id: TerminalId },
    Detach { terminal_id: TerminalId },
    Shutdown,
    List,
    Status,
}

impl View for ClientRequest {
    type V = Request;

    open spec fn view(&self) -> Request {
        match self {
            ClientRequest::Hello { client_id } => Request::Hello { client_id: client_id@ },
            ClientRequest::Spawn { terminal_id, window_id, workspace_path, shell, command } => Request::Spawn {
                terminal_id: *terminal_id,
                window_id: *window_id,
                workspace_path: workspace_path@,
                shell: opt_str_view(*shell),
                command: opt_strings_view(*command),
            },
            ClientRequest::Attach { terminal_id } => Request::Attach { terminal_id: *terminal_id },
            ClientRequest::Input { terminal_id, data_base64 } => Request::Input {
                terminal_id: *terminal_id,
                data_base64: data_base64@,
            },
            ClientRequest::Resize { terminal_id, cols, rows } => Request::Resize {
                terminal_id: *terminal_id,
                cols: *cols,
                rows: *rows,
            },
            ClientRequest::Capture { terminal_id, lines } => Request::Capture {
                terminal_id: *terminal_id,
                lines: *lines,
            },
            ClientRequest::Terminate { terminal_id } => Request::Terminate { terminal_id: *terminal_id },
            ClientRequest::Detach { terminal_id } => Request::Detach { terminal_id: *terminal_id },
            ClientRequest::Shutdown => Request::Shutdown,
            ClientRequest::List => Request::List,
            ClientRequest::Status => Request::Status,
        }
    }
}

/// The bytes a request carries: the decoded input of `Input`, nothing for the others.
pub open spec fn request_payload(r: Request) -> Result<Seq<u8>, ProtocolFault> {
    match r {
        Request::Input { data_base64, .. } => payload_check(data_base64),
        _ => Ok(Seq::empty()),
    }
}

impl ClientRequest {
    /// An input request carrying `data` as base64.
    pub fn input_bytes(terminal_id: TerminalId, data: &[u8]) -> (r: Self)
        ensures
            r@ == (Request::Input { terminal_id, data_base64: b64_encoded(data@) }),
            b64_decoded(b64_encoded(data@)) == Some(data@),
            data@.len() <= MAX_BINARY_PAYLOAD_BYTES ==> request_payload(r@) == Ok::<Seq<u8>, ProtocolFault>(data@),
    {
        ClientRequest::Input { terminal_id, data_base64: encode_base64(data) }
    }

    /// The input bytes of an `Input` request, checked against the payload limits;
    /// no bytes for any other request.
    pub fn input_data(&self) -> (r: Result<Vec<u8>, ProtocolError>)
        ensures
            bytes_result(r) == request_payload(self@),
    {
        match self {
            ClientRequest::Input { data_base64, .. } => decode_base64(data_base64.as_str()),
            _ => Ok(Vec::new()),
        }
    }
}

/// A terminal the broker knows, with its status text.
#[derive(Clone, Debug, PartialEq, Eq)]
pub struct SessionSummary {
    pub terminal_id: TerminalId,
    pub status: String,
}

pub struct Summary {
    pub terminal_id: TerminalId,
    pub status: Seq<char>,
}

impl View for SessionSummary {
    type V = Summary;

    open spec fn view(&self) -> Summary {
        Summary { terminal_id: self.terminal_id, status: self.status@ }
    }
}

pub open spec fn summaries_view(v: Seq<SessionSummary>) -> Seq<Summary> {
    v.map_values(|s: SessionSummary| s@)
}

/// An event from the broker to a client.
#[derive(Clone, Debug, PartialEq, Eq)]
pub enum ServerEvent {
    Ack { message: String },
    HelloAck { server_id: String },
    Status { server_id: String, pid: u32, sessions: Vec<SessionSummary> },
    SessionList { sessions: Vec<SessionSummary> },
    Spawned { terminal_id: TerminalId, process_id: Option<u32> },
    Snapshot { terminal_id: TerminalId, cols: u16, rows: u16, text: String },
    /// Output bytes of the terminal, as standard base64, numbered by `seq`.
    Output { terminal_id: TerminalId, seq: u64, data_base64: String },
    Exit { terminal_id: TerminalId, exit_code: Option<i32> },
    Error { code: String, message: String },
}

/// The model of an event: texts as character sequences.
pub enum Event {
    Ack { message: Seq<char> },
    HelloAck { server_id: Seq<char> },
    Status { server_id: Seq<char>, pid: u32, sessions: Seq<Summary> },
    SessionList { sessions: Seq<Summary> },
    Spawned { terminal_id: TerminalId, process_id: Option<u32> },
    Snapshot { terminal_id: TerminalId, cols: u16, rows: u16, text: Seq<char> },
    Output { terminal_id: TerminalId, seq: u64, data_base64: Seq<char> },
    Exit { terminal_id: TerminalId, exit_code: Option<i32> },
    Error { code: Seq<char>, message: Seq<char> },
}

impl View for ServerEvent {
    type V = Event;

    open spec fn view(&self) -> Event {
        match self {
            ServerEvent::Ack { message } => Event::Ack { message: message@ },
            ServerEvent::HelloAck { server_id } => Event::HelloAck { server_id: server_id@ },
            ServerEvent::Status { server_id, pid, sessions } => Event::Status {
                server_id: server_id@,
                pid: *pid,
                sessions: summaries_view(sessions@),
            },
            ServerEvent::SessionList { sessions } => Event::SessionList {
                sessions: summaries_view(sessions@),
            },
            ServerEvent::Spawned { terminal_id, process_id } => Event::Spawned {
                terminal_id: *terminal_id,
                process_id: *process_id,
            },
            ServerEvent::Snapshot { terminal_id, cols, rows, text } => Event::Snapshot {
                terminal_id: *terminal_id,
                cols: *cols,
                rows: *rows,
                text: text@,
            },
            ServerEvent::Output { terminal_id, seq, data_base64 } => Event::Output {
                terminal_id: *terminal_id,
                seq: *seq,
                data_base64: data_base64@,
            },
            ServerEvent::Exit { terminal_id, exit_code } => Event::Exit {
                terminal_id: *terminal_id,
                exit_code: *exit_code,
            },
            ServerEvent::Error { code, message } => Event::Error { code: code@, message: message@ },
        }
    }
}

/// The bytes an event carries: the decoded output of `Output`, nothing for the others.
pub open spec fn event_payload(e: Event) -> Result<Seq<u8>, ProtocolFault> {
    match e {
        Event::Output { data_base64, .. } => payload_check(data_base64),
        _ => Ok(Seq::empty()),
    }
}

impl ServerEvent {
    /// An output event carrying `data` as base64.
    pub fn output_bytes(terminal_id: TerminalId, seq: u64, data: &[u8]) -> (r: Self)
        ensures
            r@ == (Event::Output { terminal_id, seq, data_base64: b64_encoded(data@) }),
            b64_decoded(b64_encoded(data@)) == Some(data@),
            data@.len() <= MAX_BINARY_PAYLOAD_BYTES ==> event_payload(r@) == Ok::<Seq<u8>, ProtocolFault>(data@),
    {
        ServerEvent::Output { terminal_id, seq, data_base64: encode_base64(data) }
    }

    /// The output bytes of an `Output` event, checked against the payload limits;
    /// no bytes for any other event.
    pub fn output_data(&self) -> (r: Result<Vec<u8>, ProtocolError>)
        ensures
            bytes_result(r) == event_payload(self@),
    {
        match self {
            ServerEvent::Output { data_base64, .. } => decode_base64(data_base64.as_str()),
            _ => Ok(Vec::new()),
        }
    }
}

} // verus!
