//! What the client of the language model gateway computes: where requests
//! go, how an answer's status is judged, how tools are offered, and how a
//! streamed answer is cut into events. Sending and receiving is the
//! caller's.

use crate::error::AgentError;
use crate::models::{FunctionDefinition, Tool};
use crate::text;
use crate::text::find_run;
use crate::tools::ToolDefinition;
use vstd::prelude::*;
use vstd::string::StringExecFns;

verus! {

/// The seconds after which a request to the gateway is given up.
pub const REQUEST_TIMEOUT_SECS: u64 = 120;

/// The number of chunks of a streamed answer that may wait to be taken.
pub const STREAM_CAPACITY: usize = 100;

/// The token limit of a completion that is asked for with tools.
pub const TOOLS_MAX_TOKENS: u32 = 1024;

/// What a stretch of a streamed answer holds.
#[derive(Debug)]
pub struct StreamEvents {
    /// The data of the complete events, in their order, up to the end mark.
    pub payloads: Vec<String>,
    /// Whether the end mark `[DONE]` was met: the stream is then over.
    pub done: bool,
    /// What is left of the buffer: the start of an event that is not
    /// complete yet.
    pub rest: String,
}

/// The content of a `StreamEvents`.
pub struct StreamEventsView {
    pub payloads: Seq<Seq<char>>,
    pub done: bool,
    pub rest: Seq<char>,
}

impl DeepView for StreamEvents {
    type V = StreamEventsView;

    open spec fn deep_view(&self) -> StreamEventsView {
        StreamEventsView { payloads: self.payloads.deep_view(), done: self.done, rest: self.rest@ }
    }
}

/// The events of a buffer. An event ends at a blank line. One that starts
/// with `data: ` carries the data after the marker; the data `[DONE]` ends
/// the stream, and what follows it is not looked at. Other events are
/// passed over. What follows the last blank line stays in the buffer.
pub open spec fn drained(buffer: Seq<char>) -> StreamEventsView
    decreases buffer.len(),
{
    let at = find_run(buffer, "\n\n"@);
    if 0 <= at && at + 2 <= buffer.len() {
        let event = buffer.take(at);
        let rest = buffer.skip(at + 2);
        if "data: "@.is_prefix_of(event) {
            let data = event.skip("data: "@.len() as int);
            if data == "[DONE]"@ {
                StreamEventsView { payloads: Seq::empty(), done: true, rest }
            } else {
                let later = drained(rest);
                StreamEventsView { payloads: seq![data] + later.payloads, ..later }
            }
        } else {
            drained(rest)
        }
    } else {
        StreamEventsView { payloads: Seq::empty(), done: false, rest: buffer }
    }
}

/// The address of the gateway's completion route.
pub fn chat_url(base_url: &str) -> (url: String)
    ensures
        url@ == base_url@ + "/chat/completions"@,
{
    base_url.to_owned().concat("/chat/completions")
}

/// The address of the gateway's list of models.
pub fn models_url(base_url: &str) -> (url: String)
    ensures
        url@ == base_url@ + "/models"@,
{
    base_url.to_owned().concat("/models")
}

/// The value of the `Authorization` header for an API key.
pub fn authorization(api_key: &str) -> (value: String)
    ensures
        value@ == "Bearer "@ + api_key@,
{
    "Bearer ".to_owned().concat(api_key)
}

/// Judges the status of the gateway's answer: a status outside 200..=299
/// is a failure of the API, with the body as its message.
pub fn check_status(status: u16, body: String) -> (r: Result<String, AgentError>)
    ensures
        200 <= status <= 299 ==> r == Ok::<String, AgentError>(body),
        !(200 <= status <= 299) ==> r == Err::<String, AgentError>(
            AgentError::ApiError { status, message: body },
        ),
{
    if 200 <= status && status <= 299 {
        Ok(body)
    } else {
        Err(AgentError::ApiError { status, message: body })
    }
}

/// Whether a tool of a request is a tool of the agent, member by member.
pub open spec fn same_tool(given: ToolDefinition, out: Tool) -> bool {
    &&& out.tool_type == given.tool_type
    &&& out.function.name == given.function.name
    &&& out.function.description == given.function.description
    &&& out.function.parameters == given.function.parameters
}

/// Whether the tools of a request are the tools of the agent, in their
/// order.
pub open spec fn same_tools(given: Seq<ToolDefinition>, out: Seq<Tool>) -> bool {
    out.len() == given.len() && forall|i: int|
        0 <= i < out.len() ==> same_tool(given[i], #[trigger] out[i])
}

/// The tools of a request, from the tools of the agent.
pub fn convert_tools(tools: Option<Vec<ToolDefinition>>) -> (r: Option<Vec<Tool>>)
    ensures
        match (tools, r) {
            (Some(given), Some(out)) => same_tools(given@, out@),
            (None, None) => true,
            _ => false,
        },
{
    match tools {
        Some(given) => {
            let mut out: Vec<Tool> = Vec::new();
            let mut i: usize = 0;
            while i < given.len()
                invariant
                    i <= given@.len(),
                    out@.len() == i,
                    forall|k: int| 0 <= k < i ==> same_tool(given@[k], #[trigger] out@[k]),
                decreases given@.len() - i,
            {
                let tool = &given[i];
                out.push(
                    Tool {
                        tool_type: tool.tool_type.clone(),
                        function: FunctionDefinition {
                            name: tool.function.name.clone(),
                            description: tool.function.description.clone(),
                            parameters: tool.function.parameters.clone(),
                        },
                    },
                );
                i = i + 1;
            }
            Some(out)
        },
        None => None,
    }
}

/// Cuts the complete events off a buffer of a streamed answer.
pub fn drain_events(buffer: &str) -> (events: StreamEvents)
    ensures
        events.deep_view() == drained(buffer@),
{
    let chars = text::to_chars(buffer);
    let blank = text::to_chars("\n\n");
    let marker = text::to_chars("data: ");
    let end = text::to_chars("[DONE]");
    let n: usize = chars.len();
    let mut payloads: Vec<String> = Vec::new();
    let mut start: usize = 0;
    let mut done: bool = false;
    let mut open: bool = true;
    proof {
        reveal_strlit("\n\n");
        reveal_strlit("data: ");
        reveal_strlit("[DONE]");
        assert(chars@.skip(0) =~= chars@);
        assert(payloads.deep_view() + drained(chars@).payloads =~= drained(chars@).payloads);
    }
    while open
        invariant
            n == chars@.len(),
            chars@ == buffer@,
            blank@ == "\n\n"@,
            blank@.len() == 2,
            marker@ == "data: "@,
            marker@.len() == 6,
            end@ == "[DONE]"@,
            start <= n,
            open ==> !done,
            open ==> drained(chars@) == (StreamEventsView {
                payloads: payloads.deep_view() + drained(chars@.skip(start as int)).payloads,
                ..drained(chars@.skip(start as int))
            }),
            !open ==> drained(chars@) == (StreamEventsView {
                payloads: payloads.deep_view(),
                done,
                rest: chars@.skip(start as int),
            }),
        decreases n - start + (if open { 1int } else { 0int }),
    {
        let ghost rest = chars@.skip(start as int);
        let at = text::find(&chars, start, &blank);
        proof {
            text::lemma_find_run(rest, blank@);
        }
        if at >= n {
            proof {
                assert(payloads.deep_view() + Seq::<Seq<char>>::empty() =~= payloads.deep_view());
            }
            open = false;
        } else {
            let ghost event = rest.take(at - start);
            proof {
                assert(event =~= chars@.subrange(start as int, at as int));
                assert(rest.skip(at - start + 2) =~= chars@.skip(at + 2));
            }
            if text::matches_at(&chars, start, at, &marker) {
                proof {
                    assert(event.subrange(0, 6) =~= chars@.subrange(start as int, start + 6));
                    assert(event.skip(6) =~= chars@.subrange(start + 6, at as int));
                }
                let data = text::substring(&chars, start + 6, at);
                if *data.as_str() == *"[DONE]" {
                    proof {
                        assert(payloads.deep_view() + Seq::<Seq<char>>::empty()
                            =~= payloads.deep_view());
                    }
                    done = true;
                    open = false;
                } else {
                    let ghost before = payloads.deep_view();
                    payloads.push(data);
                    proof {
                        let later = drained(chars@.skip(at + 2));
                        assert(payloads.deep_view() =~= before.push(data@));
                        assert(before + (seq![data@] + later.payloads) =~= before.push(data@)
                            + later.payloads);
                    }
                }
            } else {
                proof {
                    if event.len() >= 6 {
                        assert(event.subrange(0, 6) =~= chars@.subrange(start as int, start + 6));
                    }
                }
            }
            start = at + 2;
        }
    }
    StreamEvents { payloads, done, rest: text::substring(&chars, start, n) }
}

} // verus!
