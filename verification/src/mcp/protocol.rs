//! The JSON-RPC 2.0 codec: request envelopes, response envelopes, the
//! initialization parameters and the reducer for Server-Sent-Events bodies.

use crate::json;
use crate::json::{
    i64_member, json_parse, json_text, optional_content, optional_u64_member, present_member,
    text_member, value_content, JsonValue,
};
use crate::mcp::error::McpError;
use crate::text;
use crate::text::{index_of, space_flags, trimmed};
use serde_json::Value;
use vstd::prelude::*;
use vstd::string::StringExecFns;

verus! {

/// A request envelope.
#[derive(Debug)]
pub struct JsonRpcRequest {
    pub jsonrpc: String,
    pub id: u64,
    pub method: String,
    pub params: Option<Value>,
}

/// The content of a request envelope.
pub struct JsonRpcRequestView {
    pub jsonrpc: Seq<char>,
    pub id: u64,
    pub method: Seq<char>,
    pub params: Option<JsonValue>,
}

impl DeepView for JsonRpcRequest {
    type V = JsonRpcRequestView;

    open spec fn deep_view(&self) -> JsonRpcRequestView {
        JsonRpcRequestView {
            jsonrpc: self.jsonrpc@,
            id: self.id,
            method: self.method@,
            params: optional_content(self.params),
        }
    }
}

/// An envelope framed from the JSON texts of its members: `jsonrpc`, `id`
/// and `method` in this order, then `params` where there are any.
pub open spec fn framed(
    jsonrpc: Seq<char>,
    id: Seq<char>,
    method: Seq<char>,
    params: Option<Seq<char>>,
) -> Seq<char> {
    "{\"jsonrpc\":"@ + jsonrpc + ",\"id\":"@ + id + ",\"method\":"@ + method + match params {
        Some(p) => ",\"params\":"@ + p,
        None => Seq::empty(),
    } + "}"@
}

/// The text of a request envelope on the wire: the envelope framed from the
/// JSON texts of its members.
pub open spec fn request_text(r: JsonRpcRequestView) -> Seq<char> {
    framed(
        json_text(JsonValue::Str(r.jsonrpc)),
        json_text(JsonValue::Integer(r.id as int)),
        json_text(JsonValue::Str(r.method)),
        match r.params {
            Some(p) => Some(json_text(p)),
            None => None,
        },
    )
}

/// Frames an envelope from the JSON texts of its members.
pub fn frame(jsonrpc: &str, id: &str, method: &str, params: Option<&str>) -> (s: String)
    ensures
        s@ == framed(
            jsonrpc@,
            id@,
            method@,
            match params {
                Some(p) => Some(p@),
                None => None,
            },
        ),
{
    let mut out = "{\"jsonrpc\":".to_owned();
    out.append(jsonrpc);
    out.append(",\"id\":");
    out.append(id);
    out.append(",\"method\":");
    out.append(method);
    match params {
        Some(p) => {
            let mut tail = ",\"params\":".to_owned();
            tail.append(p);
            out.append(tail.as_str());
        },
        None => {
            assert(out@ + Seq::<char>::empty() =~= out@);
        },
    }
    out.append("}");
    out
}

impl JsonRpcRequest {
    /// The envelope of version 2.0 with the given id, method and parameters.
    pub fn new(id: u64, method: &str, params: Option<Value>) -> (r: Self)
        ensures
            r.jsonrpc@ == "2.0"@,
            r.id == id,
            r.method@ == method@,
            r.params == params,
    {
        JsonRpcRequest { jsonrpc: "2.0".to_owned(), id, method: method.to_owned(), params }
    }

    /// The envelope as one line of JSON, without a line end.
    pub fn to_text(&self) -> (s: String)
        ensures
            s@ == request_text(self.deep_view()),
    {
        let jsonrpc = json::to_text(&json::string(self.jsonrpc.clone()));
        let id = json::to_text(&json::unsigned(self.id));
        let method = json::to_text(&json::string(self.method.clone()));
        match &self.params {
            Some(p) => {
                let params = json::to_text(p);
                frame(jsonrpc.as_str(), id.as_str(), method.as_str(), Some(params.as_str()))
            },
            None => frame(jsonrpc.as_str(), id.as_str(), method.as_str(), None),
        }
    }
}

/// The failure that a provider reports in a response envelope.
#[derive(Debug, Clone)]
pub struct JsonRpcError {
    pub code: i64,
    pub message: String,
}

/// The content of a `JsonRpcError`.
pub struct JsonRpcErrorView {
    pub code: i64,
    pub message: Seq<char>,
}

impl DeepView for JsonRpcError {
    type V = JsonRpcErrorView;

    open spec fn deep_view(&self) -> JsonRpcErrorView {
        JsonRpcErrorView { code: self.code, message: self.message@ }
    }
}

/// A response envelope.
#[derive(Debug)]
pub struct JsonRpcResponse {
    pub jsonrpc: String,
    pub id: Option<u64>,
    pub result: Option<Value>,
    pub error: Option<JsonRpcError>,
}

/// The content of a response envelope.
pub struct JsonRpcResponseView {
    pub jsonrpc: Seq<char>,
    pub id: Option<u64>,
    pub result: Option<JsonValue>,
    pub error: Option<JsonRpcErrorView>,
}

impl DeepView for JsonRpcResponse {
    type V = JsonRpcResponseView;

    open spec fn deep_view(&self) -> JsonRpcResponseView {
        JsonRpcResponseView {
            jsonrpc: self.jsonrpc@,
            id: self.id,
            result: optional_content(self.result),
            error: self.error.deep_view(),
        }
    }
}

/// The reported failure that a JSON value stands for: an object with an
/// integer `code` and a string `message`.
pub open spec fn decode_error(v: JsonValue) -> Option<JsonRpcErrorView> {
    match (i64_member(v, "code"@), text_member(v, "message"@)) {
        (Some(code), Some(message)) => Some(JsonRpcErrorView { code, message }),
        _ => None,
    }
}

/// The response envelope that a JSON value stands for: an object with a
/// string `jsonrpc`, an optional `id` that fits `u64`, an optional `result`
/// and an optional `error`; `null` counts as absent. `None` for every other
/// value.
pub open spec fn decode_response(v: JsonValue) -> Option<JsonRpcResponseView> {
    match (text_member(v, "jsonrpc"@), optional_u64_member(v, "id"@)) {
        (Some(jsonrpc), Some(id)) => {
            let result = present_member(v, "result"@);
            match present_member(v, "error"@) {
                None => Some(JsonRpcResponseView { jsonrpc, id, result, error: None }),
                Some(e) => match decode_error(e) {
                    Some(error) => Some(
                        JsonRpcResponseView { jsonrpc, id, result, error: Some(error) },
                    ),
                    None => None,
                },
            }
        },
        _ => None,
    }
}

/// The response envelope that a text stands for, or `None` where the text is
/// not JSON or the JSON is not an envelope.
pub open spec fn parse_response(text: Seq<char>) -> Option<JsonRpcResponseView> {
    match json_parse(text) {
        Some(v) => decode_response(v),
        None => None,
    }
}

impl JsonRpcError {
    /// Reads a reported failure from a JSON value.
    pub fn from_value(v: &Value) -> (r: Option<Self>)
        ensures
            r.deep_view() == decode_error(value_content(*v)),
    {
        match (json::get_i64(v, "code"), json::get_text(v, "message")) {
            (Some(code), Some(message)) => Some(JsonRpcError { code, message }),
            _ => None,
        }
    }
}

impl JsonRpcResponse {
    /// The result of the envelope. A reported failure comes first: with an
    /// `error` present the result, if any, is ignored.
    pub fn into_result(self) -> (r: Result<Value, McpError>)
        ensures
            match self.error {
                Some(e) => r == Err::<Value, McpError>(
                    McpError::Rpc { code: e.code, message: e.message },
                ),
                None => match self.result {
                    Some(v) => r == Ok::<Value, McpError>(v),
                    None => r == Err::<Value, McpError>(McpError::MissingResult),
                },
            },
    {
        match self.error {
            Some(e) => Err(McpError::Rpc { code: e.code, message: e.message }),
            None => match self.result {
                Some(v) => Ok(v),
                None => Err(McpError::MissingResult),
            },
        }
    }

    /// Reads a response envelope from a JSON value.
    pub fn from_value(v: &Value) -> (r: Option<Self>)
        ensures
            r.deep_view() == decode_response(value_content(*v)),
    {
        let jsonrpc = match json::get_text(v, "jsonrpc") {
            Some(s) => s,
            None => {
                return None;
            },
        };
        let id = match json::get_optional_u64(v, "id") {
            Some(id) => id,
            None => {
                return None;
            },
        };
        let result = match json::get_present(v, "result") {
            Some(m) => Some(m.clone()),
            None => None,
        };
        let error = match json::get_present(v, "error") {
            Some(e) => match JsonRpcError::from_value(e) {
                Some(error) => Some(error),
                None => {
                    return None;
                },
            },
            None => None,
        };
        Some(JsonRpcResponse { jsonrpc, id, result, error })
    }

    /// Reads a response envelope from a text.
    pub fn parse(text: &str) -> (r: Option<Self>)
        ensures
            r.deep_view() == parse_response(text@),
    {
        match json::parse(text) {
            Ok(v) => JsonRpcResponse::from_value(&v),
            Err(_) => None,
        }
    }
}

/// The pieces of a text between occurrences of `sep`, each with the flags of
/// its characters.
pub open spec fn split_with(s: Seq<char>, flags: Seq<bool>, sep: char) -> Seq<
    (Seq<char>, Seq<bool>),
>
    decreases s.len(),
{
    let n = index_of(s, sep);
    if 0 <= n < s.len() {
        seq![(s.take(n), flags.take(n))] + split_with(s.skip(n + 1), flags.skip(n + 1), sep)
    } else {
        seq![(s, flags)]
    }
}

/// The payload of one line of an event stream, given which of its
/// characters are white space: what follows the marker `data:`, without the
/// white space at its ends, where the line starts with the marker and
/// something is left.
pub open spec fn data_payload(line: Seq<char>, spaces: Seq<bool>) -> Option<Seq<char>> {
    if "data:"@.is_prefix_of(line) {
        let after = "data:"@.len() as int;
        let bounds = trimmed(spaces.skip(after));
        if bounds.0 < bounds.1 {
            Some(line.skip(after).subrange(bounds.0, bounds.1))
        } else {
            None
        }
    } else {
        None
    }
}

/// The payload of the last line that has one.
pub open spec fn last_payload(lines: Seq<(Seq<char>, Seq<bool>)>) -> Option<Seq<char>>
    decreases lines.len(),
{
    if lines.len() == 0 {
        None
    } else {
        match data_payload(lines.last().0, lines.last().1) {
            Some(p) => Some(p),
            None => last_payload(lines.drop_last()),
        }
    }
}

/// The JSON payload of an event-stream body, given which of its characters
/// are white space: the payload of its last data line, or the whole body
/// where no line has a payload.
pub open spec fn sse_payload_with(body: Seq<char>, spaces: Seq<bool>) -> Seq<char> {
    match last_payload(split_with(body, spaces, '\n')) {
        Some(p) => p,
        None => body,
    }
}

/// The JSON payload of an event-stream body.
pub open spec fn sse_payload(body: Seq<char>) -> Seq<char> {
    sse_payload_with(body, space_flags(body))
}

/// The last payload of a line followed by more lines is the last payload of
/// those, or else the payload of the line.
pub proof fn lemma_last_payload_first(
    line: (Seq<char>, Seq<bool>),
    rest: Seq<(Seq<char>, Seq<bool>)>,
)
    ensures
        last_payload(seq![line] + rest) == match last_payload(rest) {
            Some(p) => Some(p),
            None => data_payload(line.0, line.1),
        },
    decreases rest.len(),
{
    let all = seq![line] + rest;
    if rest.len() == 0 {
        assert(all.last() == line);
        assert(all.drop_last() =~= Seq::<(Seq<char>, Seq<bool>)>::empty());
        assert(last_payload(all.drop_last()) is None);
        assert(last_payload(rest) is None);
    } else {
        assert(all.last() == rest.last());
        assert(all.drop_last() =~= seq![line] + rest.drop_last());
        lemma_last_payload_first(line, rest.drop_last());
    }
}

/// Reduces the body of an event stream to its JSON payload, given for each
/// of its characters whether it is white space.
pub fn reduce_sse(chars: &Vec<char>, spaces: &Vec<bool>) -> (payload: String)
    requires
        spaces.len() == chars.len(),
    ensures
        payload@ == sse_payload_with(chars@, spaces@),
{
    let marker = text::to_chars("data:");
    let n: usize = chars.len();
    let mut start: usize = 0;
    let mut best: Option<(usize, usize)> = None;
    let mut done: bool = false;
    proof {
        reveal_strlit("data:");
        assert(chars@.skip(0) =~= chars@);
        assert(spaces@.skip(0) =~= spaces@);
    }
    while !done
        invariant
            n == chars@.len(),
            n == spaces@.len(),
            marker@ == "data:"@,
            marker@.len() == 5,
            start <= n,
            best matches Some(b) ==> b.0 <= b.1 <= n,
            !done ==> last_payload(split_with(chars@, spaces@, '\n')) == match last_payload(
                split_with(chars@.skip(start as int), spaces@.skip(start as int), '\n'),
            ) {
                Some(p) => Some(p),
                None => match best {
                    Some(b) => Some(chars@.subrange(b.0 as int, b.1 as int)),
                    None => None,
                },
            },
            done ==> last_payload(split_with(chars@, spaces@, '\n')) == match best {
                Some(b) => Some(chars@.subrange(b.0 as int, b.1 as int)),
                None => None,
            },
        decreases n - start + (if done { 0int } else { 1int }),
    {
        let end = text::find_char(chars, start, n, '\n');
        let ghost rest = chars@.skip(start as int);
        let ghost rest_spaces = spaces@.skip(start as int);
        let ghost line = chars@.subrange(start as int, end as int);
        let ghost line_spaces = spaces@.subrange(start as int, end as int);
        proof {
            assert(rest =~= chars@.subrange(start as int, n as int));
            text::lemma_index_of(rest, '\n');
            assert(rest.take(end - start) =~= line);
            assert(rest_spaces.take(end - start) =~= line_spaces);
            if end < n {
                assert(rest.skip(end - start + 1) =~= chars@.skip(end + 1));
                assert(rest_spaces.skip(end - start + 1) =~= spaces@.skip(end + 1));
                lemma_last_payload_first(
                    (line, line_spaces),
                    split_with(chars@.skip(end + 1), spaces@.skip(end + 1), '\n'),
                );
            } else {
                assert(rest =~= line);
                assert(rest_spaces =~= line_spaces);
                lemma_last_payload_first((line, line_spaces), Seq::empty());
                assert(seq![(line, line_spaces)] + Seq::<(Seq<char>, Seq<bool>)>::empty() =~= seq![
                    (line, line_spaces),
                ]);
            }
        }
        if text::matches_at(chars, start, end, &marker) {
            let (a, b) = text::trim_flags(spaces, start + 5, end);
            proof {
                assert(line.subrange(0, 5) =~= chars@.subrange(start as int, start + 5));
                assert(line_spaces.skip(5) =~= spaces@.subrange(start + 5, end as int));
                assert(line.skip(5).subrange(a - (start + 5), b - (start + 5)) =~= chars@.subrange(
                    a as int,
                    b as int,
                ));
            }
            if a < b {
                best = Some((a, b));
            }
        } else {
            proof {
                if line.len() >= 5 {
                    assert(line.subrange(0, 5) =~= chars@.subrange(start as int, start + 5));
                }
            }
        }
        if end < n {
            start = end + 1;
        } else {
            done = true;
        }
    }
    match best {
        Some((a, b)) => text::substring(chars, a, b),
        None => {
            assert(chars@.subrange(0, n as int) =~= chars@);
            text::substring(chars, 0, n)
        },
    }
}

/// Reduces the body of an event stream to its JSON payload.
pub fn parse_sse_response(body: &str) -> (payload: String)
    ensures
        payload@ == sse_payload(body@),
{
    let chars = text::to_chars(body);
    let spaces = text::classify(&chars, 0, chars.len());
    assert(chars@.subrange(0, chars@.len() as int) =~= chars@);
    reduce_sse(&chars, &spaces)
}

/// The protocol version that the client announces.
pub const MCP_PROTOCOL_VERSION: &'static str = "2025-11-25";

/// The content of the initialization parameters: the protocol version, the
/// declared capabilities and the client's identity.
pub open spec fn init_params_content() -> JsonValue {
    JsonValue::Object(
        map![
            "protocolVersion"@ => JsonValue::Str("2025-11-25"@),
            "capabilities"@ => JsonValue::Object(
                map![
                    "roots"@ => JsonValue::Object(map!["listChanged"@ => JsonValue::Bool(true)]),
                    "sampling"@ => JsonValue::Object(Map::empty()),
                ],
            ),
            "clientInfo"@ => JsonValue::Object(
                map![
                    "name"@ => JsonValue::Str("llm-agent"@),
                    "version"@ => JsonValue::Str("0.1.0"@),
                ],
            ),
        ],
    )
}

/// The parameters of the `initialize` request.
pub fn create_init_params() -> (v: Value)
    ensures
        value_content(v) == init_params_content(),
{
    proof {
        reveal_strlit("protocolVersion");
        reveal_strlit("capabilities");
        reveal_strlit("clientInfo");
        reveal_strlit("roots");
        reveal_strlit("sampling");
        reveal_strlit("name");
        reveal_strlit("version");
        assert("protocolVersion"@.len() == 15 && "capabilities"@.len() == 12
            && "clientInfo"@.len() == 10);
        assert("roots"@.len() == 5 && "sampling"@.len() == 8);
        assert("name"@.len() == 4 && "version"@.len() == 7);
    }
    let roots = json::object_of_one("listChanged", json::boolean(true));
    let capabilities = json::object_of_two("roots", roots, "sampling", json::empty_object());
    let client = json::object_of_two(
        "name",
        json::string("llm-agent".to_owned()),
        "version",
        json::string("0.1.0".to_owned()),
    );
    json::object_of_three(
        "protocolVersion",
        json::string(MCP_PROTOCOL_VERSION.to_owned()),
        "capabilities",
        capabilities,
        "clientInfo",
        client,
    )
}

} // verus!
