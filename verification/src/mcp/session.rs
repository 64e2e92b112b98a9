//! The live state of one provider: its request-id counter, the handshake
//! that connects it, and what it advertised.

use crate::json;
use crate::json::{member, optional_content, JsonValue};
use crate::mcp::error::McpError;
use crate::mcp::protocol::{
    create_init_params, init_params_content, JsonRpcRequest, JsonRpcRequestView, JsonRpcResponse,
};
use crate::mcp::types::{
    decode_resources, decode_tools, McpResource, McpResourceView, McpTool, McpToolView,
};
use serde_json::Value;
use vstd::prelude::*;

verus! {

/// How far the handshake of a session has come.
#[derive(Debug, Clone, Copy, PartialEq, Eq, Structural)]
pub enum HandshakePhase {
    /// Nothing was sent yet.
    Idle,
    /// `initialize` was sent.
    Initializing,
    /// `notifications/initialized` was sent.
    Notifying,
    /// `tools/list` was sent.
    ListingTools,
    /// `resources/list` was sent.
    ListingResources,
    /// The provider is connected.
    Ready,
    /// The provider refused `initialize`.
    Failed,
}

/// What the handshake asks for next.
#[derive(Debug)]
pub enum HandshakeStep {
    /// Send this request and hand back what the transport answered.
    Send(JsonRpcRequest),
    /// The provider is connected.
    Connected,
    /// The handshake failed; the session is to be released.
    Failed(McpError),
}

/// The session of one provider.
#[derive(Debug)]
pub struct McpServerInstance {
    name: String,
    request_id: u64,
    tools: Vec<McpTool>,
    resources: Vec<McpResource>,
    phase: HandshakePhase,
}

/// The content of a session.
pub struct SessionView {
    pub name: Seq<char>,
    /// The id of the last request that was issued, 0 before the first.
    pub request_id: u64,
    pub tools: Seq<McpToolView>,
    pub resources: Seq<McpResourceView>,
    pub phase: HandshakePhase,
}

impl DeepView for McpServerInstance {
    type V = SessionView;

    closed spec fn deep_view(&self) -> SessionView {
        SessionView {
            name: self.name@,
            request_id: self.request_id,
            tools: self.tools.deep_view(),
            resources: self.resources.deep_view(),
            phase: self.phase,
        }
    }
}

impl SessionView {
    /// The session after it has issued one more request.
    pub open spec fn issue(self) -> SessionView {
        SessionView { request_id: (self.request_id + 1) as u64, ..self }
    }

    /// The session after it has issued `n` more requests.
    pub open spec fn issue_many(self, n: nat) -> SessionView
        decreases n,
    {
        if n == 0 {
            self
        } else {
            self.issue_many((n - 1) as nat).issue()
        }
    }
}

/// The session of a provider before anything was sent.
pub open spec fn fresh_session(name: Seq<char>) -> SessionView {
    SessionView {
        name,
        request_id: 0,
        tools: Seq::empty(),
        resources: Seq::empty(),
        phase: HandshakePhase::Idle,
    }
}

/// The requests of one session are numbered from 1 in the order in which
/// they are issued: the `n`-th request of a new session carries the id `n`,
/// and issuing changes nothing else of the session.
pub proof fn law_request_ids_count_up(name: Seq<char>, n: nat)
    requires
        n <= u64::MAX,
    ensures
        fresh_session(name).issue_many(n) == (SessionView {
            request_id: n as u64,
            ..fresh_session(name)
        }),
    decreases n,
{
    if n > 0 {
        law_request_ids_count_up(name, (n - 1) as nat);
    }
}

/// Whether a request is the envelope of version 2.0 with this id, method and
/// parameters.
pub open spec fn request_is(
    r: JsonRpcRequest,
    id: int,
    method: Seq<char>,
    params: Option<JsonValue>,
) -> bool {
    r.deep_view() == (JsonRpcRequestView { jsonrpc: "2.0"@, id: id as u64, method, params })
}

/// The result that a transport's answer carries: that of an envelope
/// without a reported failure.
pub open spec fn reply_result(reply: Result<JsonRpcResponse, McpError>) -> Option<JsonValue> {
    match reply {
        Ok(response) => if response.error is None {
            optional_content(response.result)
        } else {
            None
        },
        Err(_) => None,
    }
}

/// The failure that ends a request, or `None` where the request succeeds:
/// the transport's failure, or else the failure that the envelope reports, or
/// else that the envelope holds no result.
pub open spec fn reply_failure(reply: Result<JsonRpcResponse, McpError>) -> Option<McpError> {
    match reply {
        Err(e) => Some(e),
        Ok(response) => match response.error {
            Some(e) => Some(McpError::Rpc { code: e.code, message: e.message }),
            None => match response.result {
                Some(_) => None,
                None => Some(McpError::MissingResult),
            },
        },
    }
}

/// Whether `r` is what a session named `name` makes of a transport's answer:
/// the result of the envelope, or the failure that ends the request, under
/// the provider's name.
pub open spec fn received(
    name: Seq<char>,
    reply: Result<JsonRpcResponse, McpError>,
    r: Result<Value, McpError>,
) -> bool {
    match reply_failure(reply) {
        Some(failure) => (r matches Err(McpError::Provider { server, cause }) && server@ == name
            && *cause == failure),
        None => r == Ok::<Value, McpError>(reply->Ok_0.result->0),
    }
}

/// Whether the handshake waits for an answer in this phase.
pub open spec fn awaits_reply(phase: HandshakePhase) -> bool {
    phase == HandshakePhase::Initializing || phase == HandshakePhase::Notifying || phase
        == HandshakePhase::ListingTools || phase == HandshakePhase::ListingResources
}

/// Whether the handshake may issue a request when it takes an answer in this
/// phase: in every phase that waits for one but the last.
pub open spec fn issues_request(phase: HandshakePhase) -> bool {
    phase == HandshakePhase::Initializing || phase == HandshakePhase::Notifying || phase
        == HandshakePhase::ListingTools
}

/// The tool cache after the answer to `tools/list`: the listed tools where
/// the result has a member `tools`, and the cache as it was otherwise.
pub open spec fn listed_tools(cache: Seq<McpToolView>, reply: Result<JsonRpcResponse, McpError>) -> Seq<
    McpToolView,
> {
    match reply_result(reply) {
        Some(result) => match member(result, "tools"@) {
            Some(tools) => decode_tools(tools),
            None => cache,
        },
        None => cache,
    }
}

/// The resource cache after the answer to `resources/list`.
pub open spec fn listed_resources(
    cache: Seq<McpResourceView>,
    reply: Result<JsonRpcResponse, McpError>,
) -> Seq<McpResourceView> {
    match reply_result(reply) {
        Some(result) => match member(result, "resources"@) {
            Some(resources) => decode_resources(resources),
            None => cache,
        },
        None => cache,
    }
}

/// The session after the handshake has taken an answer.
pub open spec fn after_reply(s: SessionView, reply: Result<JsonRpcResponse, McpError>) -> SessionView {
    match s.phase {
        HandshakePhase::Initializing => if reply_result(reply) is Some {
            SessionView {
                request_id: (s.request_id + 1) as u64,
                phase: HandshakePhase::Notifying,
                ..s
            }
        } else {
            SessionView { phase: HandshakePhase::Failed, ..s }
        },
        HandshakePhase::Notifying => SessionView {
            request_id: (s.request_id + 1) as u64,
            phase: HandshakePhase::ListingTools,
            ..s
        },
        HandshakePhase::ListingTools => SessionView {
            request_id: (s.request_id + 1) as u64,
            tools: listed_tools(s.tools, reply),
            phase: HandshakePhase::ListingResources,
            ..s
        },
        HandshakePhase::ListingResources => SessionView {
            resources: listed_resources(s.resources, reply),
            phase: HandshakePhase::Ready,
            ..s
        },
        _ => s,
    }
}

/// Whether `step` is what the handshake asks for once a session, which was
/// `s` before, has taken an answer. Only a refused `initialize` fails the
/// handshake: the notification's answer is ignored, and a listing that fails
/// leaves its cache as it was.
pub open spec fn step_after_reply(
    s: SessionView,
    reply: Result<JsonRpcResponse, McpError>,
    step: HandshakeStep,
) -> bool {
    match s.phase {
        HandshakePhase::Initializing => if reply_result(reply) is Some {
            step matches HandshakeStep::Send(r) && request_is(
                r,
                s.request_id + 1,
                "notifications/initialized"@,
                None,
            )
        } else {
            step matches HandshakeStep::Failed(e) && received(
                s.name,
                reply,
                Err::<Value, McpError>(e),
            )
        },
        HandshakePhase::Notifying => step matches HandshakeStep::Send(r) && request_is(
            r,
            s.request_id + 1,
            "tools/list"@,
            None,
        ),
        HandshakePhase::ListingTools => step matches HandshakeStep::Send(r) && request_is(
            r,
            s.request_id + 1,
            "resources/list"@,
            None,
        ),
        HandshakePhase::ListingResources => step is Connected,
        _ => true,
    }
}

/// Once `initialize` is accepted, the handshake connects the provider
/// whatever is answered to the notification and to the two listings: three
/// more requests are issued, and nothing but the caches depends on their
/// answers.
pub proof fn law_handshake_connects_once_initialized(
    s: SessionView,
    accepted: Result<JsonRpcResponse, McpError>,
    notified: Result<JsonRpcResponse, McpError>,
    tools: Result<JsonRpcResponse, McpError>,
    resources: Result<JsonRpcResponse, McpError>,
)
    requires
        s.phase == HandshakePhase::Initializing,
        reply_result(accepted) is Some,
        s.request_id + 3 <= u64::MAX,
    ensures
        after_reply(after_reply(after_reply(after_reply(s, accepted), notified), tools), resources)
            == (SessionView {
            request_id: (s.request_id + 3) as u64,
            tools: listed_tools(s.tools, tools),
            resources: listed_resources(s.resources, resources),
            phase: HandshakePhase::Ready,
            ..s
        }),
{
}

/// A refused `initialize` fails the handshake and issues nothing more.
pub proof fn law_refused_initialize_fails(s: SessionView, refused: Result<JsonRpcResponse, McpError>)
    requires
        s.phase == HandshakePhase::Initializing,
        reply_result(refused) is None,
    ensures
        after_reply(s, refused) == (SessionView { phase: HandshakePhase::Failed, ..s }),
{
}

impl McpServerInstance {
    /// A session for the provider of this name: no request issued, nothing
    /// advertised, the handshake not begun.
    pub fn new(name: String) -> (s: Self)
        ensures
            s.deep_view() == fresh_session(name@),
    {
        let s = McpServerInstance {
            name,
            request_id: 0,
            tools: Vec::new(),
            resources: Vec::new(),
            phase: HandshakePhase::Idle,
        };
        assert(s.tools.deep_view() =~= Seq::<McpToolView>::empty());
        assert(s.resources.deep_view() =~= Seq::<McpResourceView>::empty());
        s
    }

    /// The provider's name.
    pub fn name(&self) -> (n: &String)
        ensures
            n@ == self.deep_view().name,
    {
        &self.name
    }

    /// The id of the last request that was issued, 0 before the first.
    pub fn request_id(&self) -> (id: u64)
        ensures
            id == self.deep_view().request_id,
    {
        self.request_id
    }

    /// The tools that the provider advertised.
    pub fn tools(&self) -> (t: &Vec<McpTool>)
        ensures
            t.deep_view() == self.deep_view().tools,
    {
        &self.tools
    }

    /// The resources that the provider advertised.
    pub fn resources(&self) -> (r: &Vec<McpResource>)
        ensures
            r.deep_view() == self.deep_view().resources,
    {
        &self.resources
    }

    /// How far the handshake has come.
    pub fn phase(&self) -> (p: HandshakePhase)
        ensures
            p == self.deep_view().phase,
    {
        self.phase
    }

    /// Whether the handshake can begin: nothing was sent yet.
    pub fn can_initialize(&self) -> (b: bool)
        ensures
            b == (self.deep_view().phase == HandshakePhase::Idle && self.deep_view().request_id
                < u64::MAX),
    {
        match self.phase {
            HandshakePhase::Idle => self.request_id < u64::MAX,
            _ => false,
        }
    }

    /// Whether the handshake can take an answer: it waits for one, and
    /// where it may issue a request the ids are not used up.
    pub fn can_advance(&self) -> (b: bool)
        ensures
            b == (awaits_reply(self.deep_view().phase) && (issues_request(self.deep_view().phase)
                ==> self.deep_view().request_id < u64::MAX)),
    {
        match self.phase {
            HandshakePhase::Initializing => self.request_id < u64::MAX,
            HandshakePhase::Notifying => self.request_id < u64::MAX,
            HandshakePhase::ListingTools => self.request_id < u64::MAX,
            HandshakePhase::ListingResources => true,
            _ => false,
        }
    }

    /// The next request of this session: the envelope with the id that
    /// follows the last one issued. Nothing else of the session changes.
    pub fn send_request(&mut self, method: &str, params: Option<Value>) -> (r: JsonRpcRequest)
        requires
            old(self).deep_view().request_id < u64::MAX,
        ensures
            r.id == old(self).deep_view().request_id + 1,
            r.jsonrpc@ == "2.0"@,
            r.method@ == method@,
            r.params == params,
            final(self).deep_view() == old(self).deep_view().issue(),
    {
        self.request_id = self.request_id + 1;
        JsonRpcRequest::new(self.request_id, method, params)
    }

    /// What the session makes of a transport's answer to a request: the
    /// result of the envelope, or the failure under the provider's name,
    /// be it the transport's, one that the provider reports, or a missing
    /// result.
    pub fn receive(&self, reply: Result<JsonRpcResponse, McpError>) -> (r: Result<Value, McpError>)
        ensures
            received(self.deep_view().name, reply, r),
            r is Ok <==> reply_result(reply) is Some,
            r matches Ok(v) ==> reply_result(reply) == Some(json::value_content(v)),
    {
        let outcome = match reply {
            Err(e) => Err(e),
            Ok(response) => response.into_result(),
        };
        match outcome {
            Ok(v) => Ok(v),
            Err(failure) => Err(
                McpError::Provider { server: self.name.clone(), cause: Box::new(failure) },
            ),
        }
    }

    /// Begins the handshake: the `initialize` request.
    pub fn initialize(&mut self) -> (r: JsonRpcRequest)
        requires
            old(self).deep_view().phase == HandshakePhase::Idle,
            old(self).deep_view().request_id < u64::MAX,
        ensures
            request_is(
                r,
                old(self).deep_view().request_id + 1,
                "initialize"@,
                Some(init_params_content()),
            ),
            final(self).deep_view() == (SessionView {
                request_id: r.id,
                phase: HandshakePhase::Initializing,
                ..old(self).deep_view()
            }),
    {
        self.phase = HandshakePhase::Initializing;
        self.send_request("initialize", Some(create_init_params()))
    }

    /// Takes the transport's answer to the request that the handshake sent
    /// last, and says what comes next.
    pub fn advance(&mut self, reply: Result<JsonRpcResponse, McpError>) -> (step: HandshakeStep)
        requires
            awaits_reply(old(self).deep_view().phase),
            issues_request(old(self).deep_view().phase) ==> old(self).deep_view().request_id
                < u64::MAX,
        ensures
            final(self).deep_view() == after_reply(old(self).deep_view(), reply),
            step_after_reply(old(self).deep_view(), reply, step),
    {
        match self.phase {
            HandshakePhase::Initializing => match self.receive(reply) {
                Ok(_) => {
                    self.phase = HandshakePhase::Notifying;
                    HandshakeStep::Send(self.send_request("notifications/initialized", None))
                },
                Err(e) => {
                    self.phase = HandshakePhase::Failed;
                    HandshakeStep::Failed(e)
                },
            },
            HandshakePhase::Notifying => {
                self.phase = HandshakePhase::ListingTools;
                HandshakeStep::Send(self.send_request("tools/list", None))
            },
            HandshakePhase::ListingTools => {
                match self.receive(reply) {
                    Ok(result) => match json::get(&result, "tools") {
                        Some(tools) => {
                            self.tools = McpTool::list_from_value(tools);
                        },
                        None => {},
                    },
                    Err(_) => {},
                }
                self.phase = HandshakePhase::ListingResources;
                HandshakeStep::Send(self.send_request("resources/list", None))
            },
            HandshakePhase::ListingResources => {
                match self.receive(reply) {
                    Ok(result) => match json::get(&result, "resources") {
                        Some(resources) => {
                            self.resources = McpResource::list_from_value(resources);
                        },
                        None => {},
                    },
                    Err(_) => {},
                }
                self.phase = HandshakePhase::Ready;
                HandshakeStep::Connected
            },
            _ => HandshakeStep::Connected,
        }
    }
}

} // verus!
