use serde_json::Value;
use vstd::prelude::*;

use crate::text::{concat_text, trim, trimmed_chars};

use crate::settings::AppSettings;
use crate::states::{
    index_of, lemma_index_of_absent, lemma_index_of_bounds, lemma_index_of_is_first, lookup,
    McpServerStates,
};

verus! {

// ---------------------------------------------------------------------------
// A JSON document, as the MCP server configuration is read from text.
// ---------------------------------------------------------------------------

/// A JSON number: a non-negative integer, a negative integer, or a floating
/// point number carried by the bit pattern of its `f64` value.
#[derive(Debug, Clone, Copy, PartialEq, Eq, Structural)]
pub enum JsonNumber {
    PosInt(u64),
    NegInt(i64),
    Float(u64),
}

/// A JSON value. Object members keep the order in which they were written.
#[derive(Debug)]
pub enum JsonValue {
    Null,
    Bool(bool),
    Number(JsonNumber),
    String(String),
    Array(Vec<JsonValue>),
    Object(Vec<(String, JsonValue)>),
}

/// The mathematical content of a `JsonValue`.
pub enum Json {
    Null,
    Bool(bool),
    Number(JsonNumber),
    Str(Seq<char>),
    Array(Seq<Json>),
    Object(Seq<(Seq<char>, Json)>),
}

impl JsonValue {
    pub open spec fn deep(&self) -> Json
        decreases self,
    {
        match self {
            JsonValue::Null => Json::Null,
            JsonValue::Bool(b) => Json::Bool(*b),
            JsonValue::Number(n) => Json::Number(*n),
            JsonValue::String(s) => Json::Str(s@),
            JsonValue::Array(items) => Json::Array(
                Seq::new(
                    items@.len(),
                    |i: int|
                        if 0 <= i < items@.len() {
                            items@[i].deep()
                        } else {
                            Json::Null
                        },
                ),
            ),
            JsonValue::Object(members) => Json::Object(
                Seq::new(
                    members@.len(),
                    |i: int|
                        if 0 <= i < members@.len() {
                            (members@[i].0@, members@[i].1.deep())
                        } else {
                            (Seq::<char>::empty(), Json::Null)
                        },
                ),
            ),
        }
    }
}

/// The members of an object, each with the content of its value.
pub open spec fn members_deep(members: Seq<(String, JsonValue)>) -> Seq<(Seq<char>, Json)> {
    Seq::new(members.len(), |i: int| (members[i].0@, members[i].1.deep()))
}

pub open spec fn option_deep(v: Option<JsonValue>) -> Option<Json> {
    match v {
        Some(x) => Some(x.deep()),
        None => None,
    }
}

/// The value of member `key` of an object (the first one, should the key
/// occur twice); `None` for a missing key and for a value that is no object.
pub open spec fn json_get(v: Json, key: Seq<char>) -> Option<Json> {
    match v {
        Json::Object(members) => match index_of(members, key) {
            Some(i) => Some(members[i].1),
            None => None,
        },
        _ => None,
    }
}

pub open spec fn json_as_str(v: Json) -> Option<Seq<char>> {
    match v {
        Json::Str(s) => Some(s),
        _ => None,
    }
}

/// A number as an `i64`, when it is an integer in range.
pub open spec fn json_as_i64(v: Json) -> Option<i64> {
    match v {
        Json::Number(JsonNumber::PosInt(u)) => if u <= i64::MAX {
            Some(u as i64)
        } else {
            None
        },
        Json::Number(JsonNumber::NegInt(i)) => Some(i),
        _ => None,
    }
}

/// The string elements of an array, in order; other elements are skipped.
pub open spec fn json_strings(items: Seq<Json>) -> Seq<Seq<char>>
    decreases items.len(),
{
    if items.len() == 0 {
        Seq::empty()
    } else {
        let rest = json_strings(items.drop_last());
        match items.last() {
            Json::Str(s) => rest.push(s),
            _ => rest,
        }
    }
}

// ---------------------------------------------------------------------------
// Reading a JSON document from text (serde_json).
// ---------------------------------------------------------------------------

#[verifier::external_type_specification]
#[verifier::external_body]
pub struct ExSerdeJsonValue(serde_json::Value);

/// The document that `serde_json::from_str` reads from `text`; `None` when
/// the text is no valid JSON.
pub uninterp spec fn parsed_json(text: Seq<char>) -> Option<Json>;

/// The message of the error `serde_json::from_str` reports for `text`.
pub uninterp spec fn json_error_text(text: Seq<char>) -> Seq<char>;

/// A `serde_json::Value` as a `JsonValue`, variant for variant (objects keep
/// their member order; a number is kept as the unsigned or signed integer
/// serde_json holds, or else as the bits of its `f64`). Used by `parse_json`
/// alone, whose contract covers it.
#[verifier::external_body]
fn json_from_serde(v: &Value) -> JsonValue {
    match v {
        Value::Null => JsonValue::Null,
        Value::Bool(b) => JsonValue::Bool(*b),
        Value::Number(n) => JsonValue::Number(match (n.as_u64(), n.as_i64()) {
            (Some(u), _) => JsonNumber::PosInt(u),
            (None, Some(i)) => JsonNumber::NegInt(i),
            _ => JsonNumber::Float(n.as_f64().unwrap_or_default().to_bits()),
        }),
        Value::String(t) => JsonValue::String(t.clone()),
        Value::Array(a) => JsonValue::Array(a.iter().map(json_from_serde).collect()),
        Value::Object(m) => JsonValue::Object(
            m.iter().map(|(k, x)| (k.clone(), json_from_serde(x))).collect(),
        ),
    }
}

/// `serde_json::from_str::<serde_json::Value>`: the document read from
/// `text`, named by `parsed_json`, or the error message, named by
/// `json_error_text`. What serde_json accepts as JSON is not stated beyond
/// these names.
#[verifier::external_body]
pub(crate) fn parse_json(text: &str) -> (r: Result<JsonValue, String>)
    ensures
        match r {
            Ok(v) => parsed_json(text@) == Some(v.deep()),
            Err(e) => parsed_json(text@) is None && e@ == json_error_text(text@),
        },
{
    match serde_json::from_str::<serde_json::Value>(text) {
        Ok(v) => Ok(json_from_serde(&v)),
        Err(e) => Err(e.to_string()),
    }
}

impl JsonValue {
    proof fn lemma_object_deep(members: Vec<(String, JsonValue)>)
        ensures
            JsonValue::Object(members).deep() == Json::Object(members_deep(members@)),
    {
        let v = JsonValue::Object(members);
        match v.deep() {
            Json::Object(d) => {
                assert(d =~= members_deep(members@));
            },
            _ => {},
        }
    }

    /// Position of member `key` in `members`.
    fn member_index(members: &Vec<(String, JsonValue)>, key: &str) -> (r: Option<usize>)
        ensures
            r matches Some(i) ==> index_of(members_deep(members@), key@) == Some(i as int),
            r is None ==> index_of(members_deep(members@), key@) is None,
    {
        let ghost md = members_deep(members@);
        let target = key.to_string();
        let mut i: usize = 0;
        while i < members.len()
            invariant
                0 <= i <= members@.len(),
                md == members_deep(members@),
                target@ == key@,
                forall|j: int| 0 <= j < i ==> md[j].0 != key@,
            decreases members@.len() - i,
        {
            if members[i].0 == target {
                proof {
                    lemma_index_of_is_first(md, key@, i as int);
                }
                return Some(i);
            }
            i += 1;
        }
        proof {
            lemma_index_of_absent(md, key@);
        }
        None
    }

    /// The value of member `key` (`serde_json::Value::get` with a string key).
    pub fn get(&self, key: &str) -> (r: Option<&JsonValue>)
        ensures
            r matches Some(x) ==> json_get(self.deep(), key@) == Some(x.deep()),
            r is None ==> json_get(self.deep(), key@) is None,
    {
        match self {
            JsonValue::Object(members) => {
                proof {
                    JsonValue::lemma_object_deep(*members);
                    lemma_index_of_bounds(members_deep(members@), key@);
                }
                match JsonValue::member_index(members, key) {
                    Some(i) => Some(&members[i].1),
                    None => None,
                }
            },
            _ => None,
        }
    }

    /// Removes member `key` from this value and hands it out.
    pub fn take_member(self, key: &str) -> (r: Option<JsonValue>)
        ensures
            option_deep(r) == json_get(self.deep(), key@),
    {
        match self {
            JsonValue::Object(members) => {
                proof {
                    JsonValue::lemma_object_deep(members);
                    lemma_index_of_bounds(members_deep(members@), key@);
                }
                match JsonValue::member_index(&members, key) {
                    Some(i) => {
                        let mut members = members;
                        let (_, v) = members.remove(i);
                        Some(v)
                    },
                    None => None,
                }
            },
            _ => None,
        }
    }

    pub fn as_str(&self) -> (r: Option<&String>)
        ensures
            r matches Some(s) ==> json_as_str(self.deep()) == Some(s@),
            r is None ==> json_as_str(self.deep()) is None,
    {
        match self {
            JsonValue::String(s) => Some(s),
            _ => None,
        }
    }

    pub fn as_i64(&self) -> (r: Option<i64>)
        ensures
            r == json_as_i64(self.deep()),
    {
        match self {
            JsonValue::Number(JsonNumber::PosInt(u)) => if *u <= 0x7fff_ffff_ffff_ffffu64 {
                Some(*u as i64)
            } else {
                None
            },
            JsonValue::Number(JsonNumber::NegInt(i)) => Some(*i),
            _ => None,
        }
    }

    pub fn is_object(&self) -> (r: bool)
        ensures
            r == (self.deep() is Object),
    {
        match self {
            JsonValue::Object(_) => true,
            _ => false,
        }
    }

    /// The string elements of an array value; empty for any other value.
    pub fn string_items(&self) -> (r: Vec<String>)
        ensures
            Seq::new(r@.len(), |i: int| r@[i]@) == (match self.deep() {
                Json::Array(items) => json_strings(items),
                _ => Seq::empty(),
            }),
    {
        let mut r: Vec<String> = Vec::new();
        match self {
            JsonValue::Array(items) => {
                let ghost d = match self.deep() {
                    Json::Array(s) => s,
                    _ => Seq::empty(),
                };
                assert(d.len() == items@.len());
                let mut i: usize = 0;
                while i < items.len()
                    invariant
                        0 <= i <= items@.len(),
                        d.len() == items@.len(),
                        forall|j: int| 0 <= j < items@.len() ==> d[j] == items@[j].deep(),
                        Seq::new(r@.len(), |k: int| r@[k]@) == json_strings(d.take(i as int)),
                    decreases items@.len() - i,
                {
                    assert(d.take(i + 1).drop_last() =~= d.take(i as int));
                    let ghost before = r@;
                    match &items[i] {
                        JsonValue::String(s) => {
                            r.push(s.clone());
                            assert(Seq::new(r@.len(), |k: int| r@[k]@) =~= Seq::new(
                                before.len(),
                                |k: int| before[k]@,
                            ).push(s@));
                        },
                        _ => {},
                    }
                    i += 1;
                }
                assert(d.take(items@.len() as int) =~= d);
            },
            _ => {
                assert(Seq::new(r@.len(), |i: int| r@[i]@) =~= Seq::<Seq<char>>::empty());
            },
        }
        r
    }
}

// ---------------------------------------------------------------------------
// MCP servers (the `mcpServers` object of a Cursor-compatible configuration).
// ---------------------------------------------------------------------------

/// What the user interface shows of one configured MCP server.
#[derive(Debug, Clone)]
pub struct McpServerSummary {
    pub name: String,
    /// The stdio launch command; empty when llama.cpp cannot start the server
    /// (and skips it).
    pub command: String,
    pub args: Vec<String>,
    pub timeout_ms: i64,
    /// Whether the entry itself is a JSON object.
    pub is_object: bool,
}

pub struct McpServerSummaryView {
    pub name: Seq<char>,
    pub command: Seq<char>,
    pub args: Seq<Seq<char>>,
    pub timeout_ms: i64,
    pub is_object: bool,
}

impl View for McpServerSummary {
    type V = McpServerSummaryView;

    open spec fn view(&self) -> McpServerSummaryView {
        McpServerSummaryView {
            name: self.name@,
            command: self.command@,
            args: Seq::new(self.args@.len(), |i: int| self.args@[i]@),
            timeout_ms: self.timeout_ms,
            is_object: self.is_object,
        }
    }
}

/// Why a configuration does not list MCP servers.
#[derive(Debug, Clone, Copy, PartialEq, Eq, Structural)]
pub enum McpConfigError {
    /// The document is not a JSON object.
    TopLevelNotObject,
    /// The document has no `mcpServers` member.
    MissingServers,
    /// `mcpServers` is not a JSON object.
    ServersNotObject,
}

pub open spec fn mcp_error_text(e: McpConfigError) -> Seq<char> {
    match e {
        McpConfigError::TopLevelNotObject => "top-level must be an object"@,
        McpConfigError::MissingServers => "missing \"mcpServers\""@,
        McpConfigError::ServersNotObject => "\"mcpServers\" must be an object"@,
    }
}

impl McpConfigError {
    /// The message shown to the user.
    pub fn message(&self) -> (s: String)
        ensures
            s@ == mcp_error_text(*self),
    {
        match self {
            McpConfigError::TopLevelNotObject => "top-level must be an object".to_string(),
            McpConfigError::MissingServers => "missing \"mcpServers\"".to_string(),
            McpConfigError::ServersNotObject => "\"mcpServers\" must be an object".to_string(),
        }
    }
}

/// The summary of server `name` configured by `cfg`: its string `command`
/// (empty if there is none), the string elements of `args`, `timeout_ms` when
/// it is an integer (30000 otherwise), and whether `cfg` is an object.
pub open spec fn summary_of(name: Seq<char>, cfg: Json) -> McpServerSummaryView {
    McpServerSummaryView {
        name: name,
        command: match json_get(cfg, "command"@) {
            Some(c) => match json_as_str(c) {
                Some(s) => s,
                None => Seq::empty(),
            },
            None => Seq::empty(),
        },
        args: match json_get(cfg, "args"@) {
            Some(Json::Array(items)) => json_strings(items),
            _ => Seq::empty(),
        },
        timeout_ms: match json_get(cfg, "timeout_ms"@) {
            Some(t) => match json_as_i64(t) {
                Some(x) => x,
                None => 30000,
            },
            None => 30000,
        },
        is_object: cfg is Object,
    }
}

/// The servers listed by a configuration document, in document order.
pub open spec fn mcp_servers_spec(root: Json) -> Result<Seq<McpServerSummaryView>, McpConfigError> {
    match root {
        Json::Object(_) => match json_get(root, "mcpServers"@) {
            None => Err(McpConfigError::MissingServers),
            Some(Json::Object(members)) => Ok(
                Seq::new(members.len(), |i: int| summary_of(members[i].0, members[i].1)),
            ),
            Some(_) => Err(McpConfigError::ServersNotObject),
        },
        _ => Err(McpConfigError::TopLevelNotObject),
    }
}

pub open spec fn summaries_view(r: Result<Vec<McpServerSummary>, McpConfigError>) -> Result<
    Seq<McpServerSummaryView>,
    McpConfigError,
> {
    match r {
        Ok(v) => Ok(Seq::new(v@.len(), |i: int| v@[i]@)),
        Err(e) => Err(e),
    }
}

fn summarize(name: &String, cfg: &JsonValue) -> (s: McpServerSummary)
    ensures
        s@ == summary_of(name@, cfg.deep()),
{
    let command = match cfg.get("command") {
        Some(c) => match c.as_str() {
            Some(s) => s.clone(),
            None => String::new(),
        },
        None => String::new(),
    };
    let args = match cfg.get("args") {
        Some(a) => a.string_items(),
        None => Vec::new(),
    };
    let timeout_ms = match cfg.get("timeout_ms") {
        Some(t) => match t.as_i64() {
            Some(x) => x,
            None => 30000,
        },
        None => 30000,
    };
    let s = McpServerSummary { name: name.clone(), command, args, timeout_ms, is_object: cfg.is_object() };
    assert(s@.args =~= summary_of(name@, cfg.deep()).args);
    s
}

/// Lists the servers of a parsed configuration document, in document order.
pub fn parse_mcp_servers_value(root: &JsonValue) -> (r: Result<Vec<McpServerSummary>, McpConfigError>)
    ensures
        summaries_view(r) == mcp_servers_spec(root.deep()),
{
    if !root.is_object() {
        return Err(McpConfigError::TopLevelNotObject);
    }
    let servers = match root.get("mcpServers") {
        Some(s) => s,
        None => {
            return Err(McpConfigError::MissingServers);
        },
    };
    match servers {
        JsonValue::Object(members) => {
            proof {
                JsonValue::lemma_object_deep(*members);
            }
            let ghost md = members_deep(members@);
            let mut out: Vec<McpServerSummary> = Vec::new();
            let mut i: usize = 0;
            while i < members.len()
                invariant
                    0 <= i <= members@.len(),
                    md == members_deep(members@),
                    out@.len() == i,
                    forall|j: int| 0 <= j < i ==> #[trigger] out@[j]@ == summary_of(md[j].0, md[j].1),
                decreases members@.len() - i,
            {
                let s = summarize(&members[i].0, &members[i].1);
                out.push(s);
                i += 1;
            }
            let r = Ok(out);
            assert(summaries_view(r)->Ok_0 =~= Seq::new(md.len(), |j: int| summary_of(md[j].0, md[j].1)));
            r
        },
        _ => Err(McpConfigError::ServersNotObject),
    }
}

/// Why configuration text does not list MCP servers.
#[derive(Debug, Clone, PartialEq, Eq)]
pub enum McpParseError {
    /// The text is no valid JSON; serde_json's message.
    Json(String),
    /// The document is valid JSON of the wrong shape.
    Config(McpConfigError),
}

impl McpParseError {
    /// The message shown to the user: `JSON: ` and serde_json's message, or
    /// the message of the shape error.
    pub fn message(&self) -> (s: String)
        ensures
            s@ == (match self {
                McpParseError::Json(m) => "JSON: "@ + m@,
                McpParseError::Config(e) => mcp_error_text(*e),
            }),
    {
        match self {
            McpParseError::Json(m) => concat_text("JSON: ", m.as_str()),
            McpParseError::Config(e) => e.message(),
        }
    }
}

/// Reads a Cursor-compatible `mcpServers` configuration and lists its
/// servers in the order they are written: an error when the text is no JSON,
/// when the document is not an object, or when `mcpServers` is missing or no
/// object.
pub fn parse_mcp_servers(json_text: &str) -> (r: Result<Vec<McpServerSummary>, McpParseError>)
    ensures
        match parsed_json(json_text@) {
            None => r matches Err(McpParseError::Json(m)) && m@ == json_error_text(json_text@),
            Some(root) => match mcp_servers_spec(root) {
                Ok(list) => r matches Ok(v) && Seq::new(v@.len(), |i: int| v@[i]@) == list,
                Err(e) => r matches Err(McpParseError::Config(x)) && x == e,
            },
        },
{
    match parse_json(json_text) {
        Err(m) => Err(McpParseError::Json(m)),
        Ok(root) => match parse_mcp_servers_value(&root) {
            Ok(v) => Ok(v),
            Err(e) => Err(McpParseError::Config(e)),
        },
    }
}

/// Whether the configuration of server entry `member` is started: the user
/// has switched the server on, and it has a non-empty stdio `command`.
pub open spec fn server_selected(states: Seq<(Seq<char>, bool)>, member: (Seq<char>, Json)) -> bool {
    &&& lookup(states, member.0) == Some(true)
    &&& match json_get(member.1, "command"@) {
        Some(c) => match json_as_str(c) {
            Some(s) => s.len() > 0,
            None => false,
        },
        None => false,
    }
}

/// The selected members, in document order.
pub open spec fn selected_servers(states: Seq<(Seq<char>, bool)>, members: Seq<(Seq<char>, Json)>) -> Seq<
    (Seq<char>, Json),
>
    decreases members.len(),
{
    if members.len() == 0 {
        Seq::empty()
    } else {
        let rest = selected_servers(states, members.drop_last());
        if server_selected(states, members.last()) {
            rest.push(members.last())
        } else {
            rest
        }
    }
}

/// The configuration handed to llama-server: an object with a single
/// `mcpServers` member holding the selected servers; `None` when the document
/// has no `mcpServers` object or no server is selected.
pub open spec fn effective_mcp_spec(states: Seq<(Seq<char>, bool)>, root: Json) -> Option<Json> {
    match json_get(root, "mcpServers"@) {
        Some(Json::Object(members)) => {
            let kept = selected_servers(states, members);
            if kept.len() == 0 {
                None
            } else {
                Some(Json::Object(seq![("mcpServers"@, Json::Object(kept))]))
            }
        },
        _ => None,
    }
}

fn has_command(cfg: &JsonValue) -> (r: bool)
    ensures
        r == (match json_get(cfg.deep(), "command"@) {
            Some(c) => match json_as_str(c) {
                Some(s) => s.len() > 0,
                None => false,
            },
            None => false,
        }),
{
    match cfg.get("command") {
        Some(c) => match c.as_str() {
            Some(s) => !s.as_str().is_empty(),
            None => false,
        },
        None => false,
    }
}

/// Keeps the servers of a parsed configuration that the user has switched on
/// and that llama-server can start (those with a stdio `command`).
pub fn select_enabled_mcp_servers(states: &McpServerStates, root: JsonValue) -> (r: Option<JsonValue>)
    ensures
        option_deep(r) == effective_mcp_spec(states@, root.deep()),
{
    let servers = root.take_member("mcpServers");
    match servers {
        Some(JsonValue::Object(members)) => {
            proof {
                JsonValue::lemma_object_deep(members);
            }
            let ghost md = members_deep(members@);
            let n = members.len();
            let mut rest = members;
            let mut kept: Vec<(String, JsonValue)> = Vec::new();
            let mut i: usize = 0;
            assert(members_deep(rest@) =~= md.subrange(0, n as int));
            while rest.len() > 0
                invariant
                    0 <= i <= n,
                    rest@.len() == n - i,
                    md.len() == n,
                    members_deep(rest@) == md.subrange(i as int, n as int),
                    members_deep(kept@) == selected_servers(states@, md.take(i as int)),
                decreases rest@.len(),
            {
                let ghost before = kept@;
                let ghost old_rest = rest@;
                let (name, cfg) = rest.remove(0);
                assert(rest@ =~= old_rest.subrange(1, old_rest.len() as int));
                assert(members_deep(old_rest)[0] == md.subrange(i as int, n as int)[0]);
                assert(md[i as int] == (name@, cfg.deep()));
                assert(md.take(i + 1).drop_last() =~= md.take(i as int));
                assert(md.take(i + 1).last() == md[i as int]);
                assert forall|k: int| 0 <= k < rest@.len() implies #[trigger] members_deep(rest@)[k]
                    == md.subrange(i + 1, n as int)[k] by {
                    assert(rest@[k] == old_rest[k + 1]);
                    assert(members_deep(old_rest)[k + 1] == md.subrange(i as int, n as int)[k + 1]);
                }
                assert(members_deep(rest@) =~= md.subrange(i + 1, n as int));
                let enabled = match states.get(name.as_str()) {
                    Some(b) => b,
                    None => false,
                };
                if enabled && has_command(&cfg) {
                    kept.push((name, cfg));
                    assert(members_deep(kept@) =~= members_deep(before).push(md[i as int]));
                } else {
                    assert(members_deep(kept@) =~= members_deep(before));
                }
                i += 1;
            }
            assert(md.take(n as int) =~= md);
            if kept.len() == 0 {
                None
            } else {
                let mut top: Vec<(String, JsonValue)> = Vec::new();
                proof {
                    JsonValue::lemma_object_deep(kept);
                }
                top.push(("mcpServers".to_string(), JsonValue::Object(kept)));
                proof {
                    JsonValue::lemma_object_deep(top);
                }
                let r = JsonValue::Object(top);
                assert(members_deep(top@) =~= seq![("mcpServers"@, Json::Object(members_deep(kept@)))]);
                Some(r)
            }
        },
        Some(other) => {
            proof {
                match other {
                    JsonValue::Object(_) => {},
                    _ => {},
                }
            }
            None
        },
        None => None,
    }
}

/// Every server kept for llama-server is one of the configured servers and is
/// switched on with a stdio command; every such server is kept.
pub proof fn lemma_selected_servers_exact(
    states: Seq<(Seq<char>, bool)>,
    members: Seq<(Seq<char>, Json)>,
)
    ensures
        forall|k: int|
            0 <= k < selected_servers(states, members).len() ==> {
                &&& server_selected(states, #[trigger] selected_servers(states, members)[k])
                &&& members.contains(selected_servers(states, members)[k])
            },
        forall|j: int|
            0 <= j < members.len() && server_selected(states, #[trigger] members[j])
                ==> selected_servers(states, members).contains(members[j]),
    decreases members.len(),
{
    if members.len() > 0 {
        let init = members.drop_last();
        lemma_selected_servers_exact(states, init);
        let rest = selected_servers(states, init);
        let sel = selected_servers(states, members);
        assert forall|k: int| 0 <= k < sel.len() implies {
            &&& server_selected(states, #[trigger] sel[k])
            &&& members.contains(sel[k])
        } by {
            if k < rest.len() {
                assert(sel[k] == rest[k]);
                let w = choose|w: int| 0 <= w < init.len() && init[w] == rest[k];
                assert(members[w] == init[w]);
            } else {
                assert(members[members.len() - 1] == members.last());
            }
        }
        assert forall|j: int|
            0 <= j < members.len() && server_selected(states, #[trigger] members[j]) implies sel.contains(
            members[j],
        ) by {
            if j < members.len() - 1 {
                assert(init[j] == members[j]);
                let w = choose|w: int| 0 <= w < rest.len() && rest[w] == init[j];
                assert(sel[w] == rest[w]);
            } else {
                assert(sel[sel.len() - 1] == members.last());
            }
        }
    }
}

impl AppSettings {
    /// Whether MCP is switched on and some configuration text was entered.
    pub fn mcp_config_present(&self) -> (r: bool)
        ensures
            r == (self.mcp_enabled && trim(self.mcp_config_json@).len() > 0),
    {
        if !self.mcp_enabled {
            return false;
        }
        let t = trimmed_chars(self.mcp_config_json.as_str());
        t.len() > 0
    }

    /// The MCP configuration handed to llama-server: nothing when MCP is
    /// switched off, no configuration text was entered, the text is no valid
    /// JSON, it has no `mcpServers` object or no server is selected;
    /// otherwise `{"mcpServers": ...}` with the servers that are switched on
    /// and have a stdio command, in document order.
    pub fn build_effective_mcp_json(&self) -> (r: Option<JsonValue>)
        ensures
            option_deep(r) == (if !(self.mcp_enabled && trim(self.mcp_config_json@).len() > 0) {
                None
            } else {
                match parsed_json(self.mcp_config_json@) {
                    Some(root) => effective_mcp_spec(self.mcp_server_states@, root),
                    None => None,
                }
            }),
    {
        if !self.mcp_config_present() {
            return None;
        }
        match parse_json(self.mcp_config_json.as_str()) {
            Ok(root) => select_enabled_mcp_servers(&self.mcp_server_states, root),
            Err(_) => None,
        }
    }
}

} // verus!
