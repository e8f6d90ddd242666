//! Typed fields of JSON objects: the names the library reads and writes, what a
//! field decodes to, and the errors a document can raise.

use vstd::prelude::*;

use crate::ids::{uuid_hyphenated, uuid_parse, uuid_parsed, TerminalId};
use crate::text::{push_str, string_of};
use crate::json::{entries_model, get_field, spec_field, Json, JsonValue, keys_of, lemma_field_of_distinct};

verus! {

/// A named field of a protocol frame or a registry entry.
#[derive(Clone, Copy, Debug, PartialEq, Eq, Structural)]
pub enum Field {
    Version,
    Type,
    ClientId,
    TerminalId,
    WindowId,
    WorkspacePath,
    Shell,
    Command,
    DataBase64,
    Cols,
    Rows,
    Lines,
    Message,
    ServerId,
    Pid,
    Sessions,
    ProcessId,
    Text,
    Sequence,
    ExitCode,
    Code,
    Status,
    Terminals,
    WorkspaceId,
    RepoRoot,
    BranchName,
    Backend,
    Kind,
    Endpoint,
    SocketPath,
    Socket,
    Session,
    Window,
    TmuxSocket,
    TmuxSession,
    TmuxWindow,
    CreatedAt,
    LastSeenAt,
}

impl Field {
    /// The key under which the field is written.
    pub open spec fn spec_name(self) -> Seq<char> {
        match self {
            Field::Version => "version"@,
            Field::Type => "type"@,
            Field::ClientId => "client_id"@,
            Field::TerminalId => "terminal_id"@,
            Field::WindowId => "window_id"@,
            Field::WorkspacePath => "workspace_path"@,
            Field::Shell => "shell"@,
            Field::Command => "command"@,
            Field::DataBase64 => "data_base64"@,
            Field::Cols => "cols"@,
            Field::Rows => "rows"@,
            Field::Lines => "lines"@,
            Field::Message => "message"@,
            Field::ServerId => "server_id"@,
            Field::Pid => "pid"@,
            Field::Sessions => "sessions"@,
            Field::ProcessId => "process_id"@,
            Field::Text => "text"@,
            Field::Sequence => "seq"@,
            Field::ExitCode => "exit_code"@,
            Field::Code => "code"@,
            Field::Status => "status"@,
            Field::Terminals => "terminals"@,
            Field::WorkspaceId => "workspace_id"@,
            Field::RepoRoot => "repo_root"@,
            Field::BranchName => "branch_name"@,
            Field::Backend => "backend"@,
            Field::Kind => "kind"@,
            Field::Endpoint => "endpoint"@,
            Field::SocketPath => "socket_path"@,
            Field::Socket => "socket"@,
            Field::Session => "session"@,
            Field::Window => "window"@,
            Field::TmuxSocket => "tmux_socket"@,
            Field::TmuxSession => "tmux_session"@,
            Field::TmuxWindow => "tmux_window"@,
            Field::CreatedAt => "created_at"@,
            Field::LastSeenAt => "last_seen_at"@,
        }
    }

    /// The key under which the field is written.
    pub fn name(self) -> (r: &'static str)
        ensures
            r@ == self.spec_name(),
    {
        match self {
            Field::Version => "version",
            Field::Type => "type",
            Field::ClientId => "client_id",
            Field::TerminalId => "terminal_id",
            Field::WindowId => "window_id",
            Field::WorkspacePath => "workspace_path",
            Field::Shell => "shell",
            Field::Command => "command",
            Field::DataBase64 => "data_base64",
            Field::Cols => "cols",
            Field::Rows => "rows",
            Field::Lines => "lines",
            Field::Message => "message",
            Field::ServerId => "server_id",
            Field::Pid => "pid",
            Field::Sessions => "sessions",
            Field::ProcessId => "process_id",
            Field::Text => "text",
            Field::Sequence => "seq",
            Field::ExitCode => "exit_code",
            Field::Code => "code",
            Field::Status => "status",
            Field::Terminals => "terminals",
            Field::WorkspaceId => "workspace_id",
            Field::RepoRoot => "repo_root",
            Field::BranchName => "branch_name",
            Field::Backend => "backend",
            Field::Kind => "kind",
            Field::Endpoint => "endpoint",
            Field::SocketPath => "socket_path",
            Field::Socket => "socket",
            Field::Session => "session",
            Field::Window => "window",
            Field::TmuxSocket => "tmux_socket",
            Field::TmuxSession => "tmux_session",
            Field::TmuxWindow => "tmux_window",
            Field::CreatedAt => "created_at",
            Field::LastSeenAt => "last_seen_at",
        }
    }
}

/// Why a JSON document does not decode.
#[derive(Clone, Copy, Debug, PartialEq, Eq, Structural)]
pub enum JsonError {
    /// The text is no JSON document.
    Syntax,
    /// The document, or an element that must be an object, is not one.
    NotAnObject,
    MissingField(Field),
    /// The field holds a value of another kind, or a number out of range.
    WrongType(Field),
    /// The field holds text that is no UUID.
    InvalidId(Field),
    /// The field names no known variant.
    UnknownVariant(Field),
    /// A live PTY terminal entry names no socket to reach it.
    LivePtyWithoutEndpoint,
}

/// What a decoding error says.
pub open spec fn json_error_text(e: JsonError) -> Seq<char> {
    match e {
        JsonError::Syntax => "invalid JSON"@,
        JsonError::NotAnObject => "expected a JSON object"@,
        JsonError::MissingField(f) => "missing field `"@ + f.spec_name() + "`"@,
        JsonError::WrongType(f) => "invalid type for field `"@ + f.spec_name() + "`"@,
        JsonError::InvalidId(f) => "invalid UUID in field `"@ + f.spec_name() + "`"@,
        JsonError::UnknownVariant(f) => "unknown variant in field `"@ + f.spec_name() + "`"@,
        JsonError::LivePtyWithoutEndpoint => "live pty terminal requires a broker socket endpoint"@,
    }
}

impl JsonError {
    /// The error's message.
    pub fn text(&self) -> (r: String)
        ensures
            r@ == json_error_text(*self),
    {
        let mut out: Vec<char> = Vec::new();
        let field = match self {
            JsonError::Syntax => {
                return "invalid JSON".to_string();
            },
            JsonError::NotAnObject => {
                return "expected a JSON object".to_string();
            },
            JsonError::LivePtyWithoutEndpoint => {
                return "live pty terminal requires a broker socket endpoint".to_string();
            },
            JsonError::MissingField(f) => {
                push_str(&mut out, "missing field `");
                f
            },
            JsonError::WrongType(f) => {
                push_str(&mut out, "invalid type for field `");
                f
            },
            JsonError::InvalidId(f) => {
                push_str(&mut out, "invalid UUID in field `");
                f
            },
            JsonError::UnknownVariant(f) => {
                push_str(&mut out, "unknown variant in field `");
                f
            },
        };
        push_str(&mut out, field.name());
        push_str(&mut out, "`");
        string_of(&out)
    }
}

pub type Entries = Seq<(Seq<char>, Json)>;

/// A required text field.
pub open spec fn dec_str(es: Entries, f: Field) -> Result<Seq<char>, JsonError> {
    match spec_field(es, f.spec_name()) {
        None => Err(JsonError::MissingField(f)),
        Some(Json::Str(s)) => Ok(s),
        Some(_) => Err(JsonError::WrongType(f)),
    }
}

/// An optional text field: absent or `null` is nothing.
pub open spec fn dec_opt_str(es: Entries, f: Field) -> Result<Option<Seq<char>>, JsonError> {
    match spec_field(es, f.spec_name()) {
        None => Ok(None),
        Some(Json::Null) => Ok(None),
        Some(Json::Str(s)) => Ok(Some(s)),
        Some(_) => Err(JsonError::WrongType(f)),
    }
}

/// A required UUID field.
pub open spec fn dec_uuid(es: Entries, f: Field) -> Result<u128, JsonError> {
    match spec_field(es, f.spec_name()) {
        None => Err(JsonError::MissingField(f)),
        Some(Json::Str(s)) => match uuid_parsed(s) {
            Some(v) => Ok(v),
            None => Err(JsonError::InvalidId(f)),
        },
        Some(_) => Err(JsonError::WrongType(f)),
    }
}

/// A required unsigned integer field no larger than `max`.
pub open spec fn dec_uint(es: Entries, f: Field, max: u64) -> Result<u64, JsonError> {
    match spec_field(es, f.spec_name()) {
        None => Err(JsonError::MissingField(f)),
        Some(Json::UInt(n)) => if n <= max {
            Ok(n)
        } else {
            Err(JsonError::WrongType(f))
        },
        Some(_) => Err(JsonError::WrongType(f)),
    }
}

/// An optional unsigned integer field no larger than `max`.
pub open spec fn dec_opt_uint(es: Entries, f: Field, max: u64) -> Result<Option<u64>, JsonError> {
    match spec_field(es, f.spec_name()) {
        None => Ok(None),
        Some(Json::Null) => Ok(None),
        Some(Json::UInt(n)) => if n <= max {
            Ok(Some(n))
        } else {
            Err(JsonError::WrongType(f))
        },
        Some(_) => Err(JsonError::WrongType(f)),
    }
}

/// An `i32` as JSON carries it.
pub open spec fn i32_of_json(j: Json) -> Option<i32> {
    match j {
        Json::UInt(n) => if n <= 0x7fff_ffff {
            Some(n as i32)
        } else {
            None
        },
        Json::NegInt(n) => if n >= -0x8000_0000 {
            Some(n as i32)
        } else {
            None
        },
        _ => None,
    }
}

/// An optional `i32` field.
pub open spec fn dec_opt_i32(es: Entries, f: Field) -> Result<Option<i32>, JsonError> {
    match spec_field(es, f.spec_name()) {
        None => Ok(None),
        Some(Json::Null) => Ok(None),
        Some(j) => match i32_of_json(j) {
            Some(n) => Ok(Some(n)),
            None => Err(JsonError::WrongType(f)),
        },
    }
}

/// The texts of an array whose items are all texts.
pub open spec fn str_items(items: Seq<Json>) -> Option<Seq<Seq<char>>>
    decreases items.len(),
{
    if items.len() == 0 {
        Some(Seq::empty())
    } else {
        match (str_items(items.drop_last()), items.last()) {
            (Some(r), Json::Str(s)) => Some(r.push(s)),
            _ => None,
        }
    }
}

/// An optional array-of-texts field.
pub open spec fn dec_opt_str_list(es: Entries, f: Field) -> Result<Option<Seq<Seq<char>>>, JsonError> {
    match spec_field(es, f.spec_name()) {
        None => Ok(None),
        Some(Json::Null) => Ok(None),
        Some(Json::Array(items)) => match str_items(items) {
            Some(l) => Ok(Some(l)),
            None => Err(JsonError::WrongType(f)),
        },
        Some(_) => Err(JsonError::WrongType(f)),
    }
}

/// The texts of a list of strings.
pub open spec fn strings_view(v: Seq<String>) -> Seq<Seq<char>> {
    v.map_values(|s: String| s@)
}

pub open spec fn opt_str_view(o: Option<String>) -> Option<Seq<char>> {
    match o {
        Some(s) => Some(s@),
        None => None,
    }
}

pub open spec fn opt_strings_view(o: Option<Vec<String>>) -> Option<Seq<Seq<char>>> {
    match o {
        Some(v) => Some(strings_view(v@)),
        None => None,
    }
}

pub open spec fn str_result(r: Result<String, JsonError>) -> Result<Seq<char>, JsonError> {
    match r {
        Ok(s) => Ok(s@),
        Err(e) => Err(e),
    }
}

pub open spec fn opt_str_result(r: Result<Option<String>, JsonError>) -> Result<Option<Seq<char>>, JsonError> {
    match r {
        Ok(o) => Ok(opt_str_view(o)),
        Err(e) => Err(e),
    }
}

pub fn field_str(es: &Vec<(String, JsonValue)>, f: Field) -> (r: Result<String, JsonError>)
    ensures
        str_result(r) == dec_str(entries_model(es@), f),
{
    match get_field(es, f.name()) {
        None => Err(JsonError::MissingField(f)),
        Some(v) => match v {
            JsonValue::Str(s) => Ok(s.clone()),
            _ => Err(JsonError::WrongType(f)),
        },
    }
}

pub fn field_opt_str(es: &Vec<(String, JsonValue)>, f: Field) -> (r: Result<Option<String>, JsonError>)
    ensures
        opt_str_result(r) == dec_opt_str(entries_model(es@), f),
{
    match get_field(es, f.name()) {
        None => Ok(None),
        Some(v) => match v {
            JsonValue::Null => Ok(None),
            JsonValue::Str(s) => Ok(Some(s.clone())),
            _ => Err(JsonError::WrongType(f)),
        },
    }
}

pub fn field_uuid(es: &Vec<(String, JsonValue)>, f: Field) -> (r: Result<u128, JsonError>)
    ensures
        r == dec_uuid(entries_model(es@), f),
{
    match get_field(es, f.name()) {
        None => Err(JsonError::MissingField(f)),
        Some(v) => match v {
            JsonValue::Str(s) => match uuid_parse(s.as_str()) {
                Some(id) => Ok(id),
                None => Err(JsonError::InvalidId(f)),
            },
            _ => Err(JsonError::WrongType(f)),
        },
    }
}

pub fn field_uint(es: &Vec<(String, JsonValue)>, f: Field, max: u64) -> (r: Result<u64, JsonError>)
    ensures
        r == dec_uint(entries_model(es@), f, max),
{
    match get_field(es, f.name()) {
        None => Err(JsonError::MissingField(f)),
        Some(v) => match v {
            JsonValue::UInt(n) => if *n <= max {
                Ok(*n)
            } else {
                Err(JsonError::WrongType(f))
            },
            _ => Err(JsonError::WrongType(f)),
        },
    }
}

pub fn field_opt_uint(es: &Vec<(String, JsonValue)>, f: Field, max: u64) -> (r: Result<Option<u64>, JsonError>)
    ensures
        r == dec_opt_uint(entries_model(es@), f, max),
{
    match get_field(es, f.name()) {
        None => Ok(None),
        Some(v) => match v {
            JsonValue::Null => Ok(None),
            JsonValue::UInt(n) => if *n <= max {
                Ok(Some(*n))
            } else {
                Err(JsonError::WrongType(f))
            },
            _ => Err(JsonError::WrongType(f)),
        },
    }
}

pub fn field_opt_i32(es: &Vec<(String, JsonValue)>, f: Field) -> (r: Result<Option<i32>, JsonError>)
    ensures
        r == dec_opt_i32(entries_model(es@), f),
{
    match get_field(es, f.name()) {
        None => Ok(None),
        Some(v) => match v {
            JsonValue::Null => Ok(None),
            JsonValue::UInt(n) => if *n <= 0x7fff_ffff {
                Ok(Some(*n as i32))
            } else {
                Err(JsonError::WrongType(f))
            },
            JsonValue::NegInt(n) => if *n >= -0x8000_0000 {
                Ok(Some(*n as i32))
            } else {
                Err(JsonError::WrongType(f))
            },
            _ => Err(JsonError::WrongType(f)),
        },
    }
}

/// The texts of `items` when every item is a text.
pub fn string_items(items: &Vec<JsonValue>) -> (r: Option<Vec<String>>)
    ensures
        match r {
            Some(v) => str_items(crate::json::items_model(items@)) == Some(strings_view(v@)),
            None => str_items(crate::json::items_model(items@)) is None,
        },
{
    let ghost m = crate::json::items_model(items@);
    let mut out: Vec<String> = Vec::new();
    let mut i: usize = 0;
    while i < items.len()
        invariant
            i <= items@.len(),
            m == crate::json::items_model(items@),
            str_items(m.take(i as int)) == Some(strings_view(out@)),
        decreases items.len() - i,
    {
        assert(m.take(i + 1).drop_last() =~= m.take(i as int));
        match &items[i] {
            JsonValue::Str(s) => {
                out.push(s.clone());
                assert(strings_view(out@) =~= strings_view(out@.drop_last()).push(s@));
            },
            _ => {
                proof {
                    lemma_str_items_prefix(m, i as int);
                }
                return None;
            },
        }
        i = i + 1;
    }
    assert(m.take(i as int) =~= m);
    Some(out)
}

/// A list of texts fails as soon as a prefix of it does.
proof fn lemma_str_items_prefix(m: Seq<Json>, i: int)
    requires
        0 <= i < m.len(),
        !(m[i] is Str),
    ensures
        str_items(m) is None,
    decreases m.len(),
{
    if i < m.len() - 1 {
        lemma_str_items_prefix(m.drop_last(), i);
    }
}

pub fn field_opt_str_list(es: &Vec<(String, JsonValue)>, f: Field) -> (r: Result<Option<Vec<String>>, JsonError>)
    ensures
        match r {
            Ok(o) => dec_opt_str_list(entries_model(es@), f) == Ok::<Option<Seq<Seq<char>>>, JsonError>(
                opt_strings_view(o),
            ),
            Err(e) => dec_opt_str_list(entries_model(es@), f) == Err::<Option<Seq<Seq<char>>>, JsonError>(e),
        },
{
    match get_field(es, f.name()) {
        None => Ok(None),
        Some(v) => match v {
            JsonValue::Null => Ok(None),
            JsonValue::Array(items) => {
                proof {
                    crate::json::lemma_array_model(*items);
                }
                match string_items(items) {
                    Some(l) => Ok(Some(l)),
                    None => Err(JsonError::WrongType(f)),
                }
            },
            _ => Err(JsonError::WrongType(f)),
        },
    }
}

// ---------------------------------------------------------------------------
// Writing fields.

/// A text as a JSON string.
pub fn str_json(s: &String) -> (r: JsonValue)
    ensures
        r@ == Json::Str(s@),
{
    JsonValue::Str(s.clone())
}

pub open spec fn opt_str_j(o: Option<Seq<char>>) -> Json {
    match o {
        Some(s) => Json::Str(s),
        None => Json::Null,
    }
}

pub fn opt_str_json(o: &Option<String>) -> (r: JsonValue)
    ensures
        r@ == opt_str_j(opt_str_view(*o)),
{
    match o {
        Some(s) => JsonValue::Str(s.clone()),
        None => JsonValue::Null,
    }
}

/// A UUID as its hyphenated text, which parses back to it.
pub fn uuid_json(v: u128) -> (r: JsonValue)
    ensures
        r@ == Json::Str(uuid_hyphenated(v)),
        uuid_parsed(uuid_hyphenated(v)) == Some(v),
{
    JsonValue::Str(TerminalId { value: v }.to_string())
}

pub open spec fn opt_uint_j(o: Option<u64>) -> Json {
    match o {
        Some(n) => Json::UInt(n),
        None => Json::Null,
    }
}

pub open spec fn i32_j(n: i32) -> Json {
    if n < 0 {
        Json::NegInt(n as i64)
    } else {
        Json::UInt(n as u64)
    }
}

pub open spec fn opt_i32_j(o: Option<i32>) -> Json {
    match o {
        Some(n) => i32_j(n),
        None => Json::Null,
    }
}

pub fn opt_i32_json(o: Option<i32>) -> (r: JsonValue)
    ensures
        r@ == opt_i32_j(o),
{
    match o {
        Some(n) => if n < 0 {
            JsonValue::NegInt(n as i64)
        } else {
            JsonValue::UInt(n as u64)
        },
        None => JsonValue::Null,
    }
}

pub open spec fn str_list_j(l: Seq<Seq<char>>) -> Json {
    Json::Array(l.map_values(|s: Seq<char>| Json::Str(s)))
}

pub open spec fn opt_str_list_j(o: Option<Seq<Seq<char>>>) -> Json {
    match o {
        Some(l) => str_list_j(l),
        None => Json::Null,
    }
}

pub fn opt_str_list_json(o: &Option<Vec<String>>) -> (r: JsonValue)
    ensures
        r@ == opt_str_list_j(opt_strings_view(*o)),
{
    match o {
        None => JsonValue::Null,
        Some(l) => {
            let mut items: Vec<JsonValue> = Vec::new();
            let mut i: usize = 0;
            while i < l.len()
                invariant
                    i <= l@.len(),
                    items@.len() == i,
                    forall|k: int| 0 <= k < i ==> #[trigger] items@[k]@ == Json::Str(l@[k]@),
                decreases l.len() - i,
            {
                let c = l[i].clone();
                items.push(JsonValue::Str(c));
                i = i + 1;
            }
            proof {
                crate::json::lemma_array_model(items);
                assert(crate::json::items_model(items@) =~= strings_view(l@).map_values(
                    |s: Seq<char>| Json::Str(s),
                ));
            }
            JsonValue::Array(items)
        },
    }
}

/// An entry named after `f`.
pub fn entry(f: Field, v: JsonValue) -> (r: (String, JsonValue))
    ensures
        r.0@ == f.spec_name(),
        r.1 == v,
{
    (f.name().to_owned(), v)
}

/// An object's model after its entries were pushed in order.
pub proof fn lemma_entries(es: Vec<(String, JsonValue)>)
    ensures
        JsonValue::Object(es)@ == Json::Object(entries_model(es@)),
{
    crate::json::lemma_object_model(es);
}

/// Text items read back as the texts they were written from.
pub proof fn lemma_str_items_round_trip(l: Seq<Seq<char>>)
    ensures
        str_items(l.map_values(|s: Seq<char>| Json::Str(s))) == Some(l),
    decreases l.len(),
{
    if l.len() > 0 {
        assert(l.map_values(|s: Seq<char>| Json::Str(s)).drop_last() =~= l.drop_last().map_values(
            |s: Seq<char>| Json::Str(s),
        ));
        lemma_str_items_round_trip(l.drop_last());
        assert(l.drop_last().push(l.last()) =~= l);
    }
}

/// With distinct keys, each field reads back the value written under its name.
pub proof fn lemma_field_at(es: Entries, i: int, f: Field)
    requires
        keys_of(es).no_duplicates(),
        0 <= i < es.len(),
        es[i].0 == f.spec_name(),
    ensures
        spec_field(es, f.spec_name()) == Some(es[i].1),
{
    lemma_field_of_distinct(es, i);
}


/// Distinct fields are written under distinct keys: no two keys agree in length,
/// first and last character.
pub proof fn lemma_field_names_distinct(a: Field, b: Field)
    ensures
        a != b ==> a.spec_name() != b.spec_name(),
{
    reveal_strlit("version");
    reveal_strlit("type");
    reveal_strlit("client_id");
    reveal_strlit("terminal_id");
    reveal_strlit("window_id");
    reveal_strlit("workspace_path");
    reveal_strlit("shell");
    reveal_strlit("command");
    reveal_strlit("data_base64");
    reveal_strlit("cols");
    reveal_strlit("rows");
    reveal_strlit("lines");
    reveal_strlit("message");
    reveal_strlit("server_id");
    reveal_strlit("pid");
    reveal_strlit("sessions");
    reveal_strlit("process_id");
    reveal_strlit("text");
    reveal_strlit("seq");
    reveal_strlit("exit_code");
    reveal_strlit("code");
    reveal_strlit("status");
    reveal_strlit("terminals");
    reveal_strlit("workspace_id");
    reveal_strlit("repo_root");
    reveal_strlit("branch_name");
    reveal_strlit("backend");
    reveal_strlit("kind");
    reveal_strlit("endpoint");
    reveal_strlit("socket_path");
    reveal_strlit("socket");
    reveal_strlit("session");
    reveal_strlit("window");
    reveal_strlit("tmux_socket");
    reveal_strlit("tmux_session");
    reveal_strlit("tmux_window");
    reveal_strlit("created_at");
    reveal_strlit("last_seen_at");
    let x = a.spec_name();
    let y = b.spec_name();
    assert(x.len() > 0 && y.len() > 0);
    if a != b {
        assert(x.len() != y.len() || x[0] != y[0] || x[x.len() - 1] != y[y.len() - 1]);
    }
}

/// Entries written under distinct fields have distinct keys.
pub proof fn lemma_keys_distinct(es: Entries, fs: Seq<Field>)
    requires
        es.len() == fs.len(),
        forall|i: int| 0 <= i < es.len() ==> #[trigger] es[i].0 == fs[i].spec_name(),
        fs.no_duplicates(),
    ensures
        keys_of(es).no_duplicates(),
{
    assert forall|i: int, j: int|
        0 <= i < keys_of(es).len() && 0 <= j < keys_of(es).len() && i != j implies keys_of(es)[i]
        != keys_of(es)[j] by {
        lemma_field_names_distinct(fs[i], fs[j]);
    }
}

/// Entries named by `fs` holding `vs`, in order.
pub open spec fn entries_of(fs: Seq<Field>, vs: Seq<Json>) -> Entries {
    Seq::new(fs.len(), |i: int| (fs[i].spec_name(), vs[i]))
}


/// The entries named by `fs` holding `vs` give, under a field's name, the value
/// next to that field.
pub proof fn lemma_entry_at(fs: Seq<Field>, vs: Seq<Json>, i: int)
    requires
        fs.len() == vs.len(),
        fs.no_duplicates(),
        0 <= i < fs.len(),
    ensures
        spec_field(entries_of(fs, vs), fs[i].spec_name()) == Some(vs[i]),
{
    let es = entries_of(fs, vs);
    lemma_keys_distinct(es, fs);
    lemma_field_of_distinct(es, i);
}

/// A field that is not among `fs` names no entry.
pub proof fn lemma_entry_absent(fs: Seq<Field>, vs: Seq<Json>, f: Field)
    requires
        fs.len() == vs.len(),
        forall|i: int| 0 <= i < fs.len() ==> fs[i] != f,
    ensures
        spec_field(entries_of(fs, vs), f.spec_name()) is None,
{
    let es = entries_of(fs, vs);
    assert forall|i: int| 0 <= i < es.len() implies es[i].0 != f.spec_name() by {
        lemma_field_names_distinct(fs[i], f);
    }
    crate::json::lemma_field_absent(es, f.spec_name());
}

} // verus!
