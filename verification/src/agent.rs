//! The agent: a conversation with the language model in which the model may
//! ask for tools of the connected providers.

use crate::config::Config;
use crate::error::AgentError;
use crate::json;
use crate::json::{json_parse, value_content};
use crate::mcp::types::{McpTool, McpToolView};
use crate::models::{
    plain_message, ChatCompletionResponse, FunctionDefinition, Message, MessageFunctionCall,
    MessageToolCall, MessageToolCallView, MessageView, Role, Tool, ToolCall, ToolCallView,
};
use crate::text;
use crate::text::{index_of, lemma_index_of_is};
use serde_json::Value;
use vstd::prelude::*;
use vstd::string::StringExecFns;

verus! {

/// The largest number of times that the model is asked in one run.
pub const MAX_ITERATIONS: usize = 10;

/// What a step of a run is.
#[derive(Debug, Clone, Copy, PartialEq, Eq, Structural)]
pub enum StepType {
    Thinking,
    ToolCall,
    ToolResult,
    FinalAnswer,
    Error,
}

/// One step of a run.
#[derive(Debug, Clone)]
pub struct AgentStep {
    pub step_type: StepType,
    pub content: String,
    pub tool_name: Option<String>,
    pub tool_input: Option<String>,
    pub tool_output: Option<String>,
}

/// The content of a step.
pub struct AgentStepView {
    pub step_type: StepType,
    pub content: Seq<char>,
    pub tool_name: Option<Seq<char>>,
    pub tool_input: Option<Seq<char>>,
    pub tool_output: Option<Seq<char>>,
}

impl DeepView for AgentStep {
    type V = AgentStepView;

    open spec fn deep_view(&self) -> AgentStepView {
        AgentStepView {
            step_type: self.step_type,
            content: self.content@,
            tool_name: self.tool_name.deep_view(),
            tool_input: self.tool_input.deep_view(),
            tool_output: self.tool_output.deep_view(),
        }
    }
}

/// The outcome of a run.
#[derive(Debug, Clone)]
pub struct AgentResponse {
    pub steps: Vec<AgentStep>,
    pub final_answer: String,
    pub iterations: usize,
}

/// A tool call that the model asked for, resolved to a provider.
#[derive(Debug)]
pub struct ToolCallPlan {
    pub server: String,
    pub tool: String,
    pub arguments: Value,
}

/// The agent.
#[derive(Debug, Clone)]
pub struct Agent {
    pub config: Config,
}

/// The name under which the model sees a provider's tool.
pub open spec fn agent_tool_name(server: Seq<char>, tool: Seq<char>) -> Seq<char> {
    "mcp_"@ + server + "_"@ + tool
}

/// The description under which the model sees a provider's tool: the
/// provider's own, or a note of where the tool comes from.
pub open spec fn agent_tool_description(server: Seq<char>, description: Option<Seq<char>>) -> Seq<
    char,
> {
    match description {
        Some(d) => d,
        None => "MCP tool from "@ + server,
    }
}

/// Whether `tool` is how the model sees a provider's tool.
pub open spec fn is_agent_tool(tool: Tool, server: Seq<char>, offered: McpToolView) -> bool {
    &&& tool.tool_type@ == "function"@
    &&& tool.function.name@ == agent_tool_name(server, offered.name)
    &&& tool.function.description@ == agent_tool_description(server, offered.description)
    &&& value_content(tool.function.parameters) == offered.input_schema
}

/// The provider and the tool that a name seen by the model stands for: the
/// name without the prefix `mcp_`, split at its first underscore. `None`
/// where the prefix or the underscore is missing.
pub open spec fn mcp_tool_name(name: Seq<char>) -> Option<(Seq<char>, Seq<char>)> {
    if "mcp_"@.is_prefix_of(name) {
        let rest = name.skip("mcp_"@.len() as int);
        let at = index_of(rest, '_');
        if at < rest.len() {
            Some((rest.take(at), rest.skip(at + 1)))
        } else {
            None
        }
    } else {
        None
    }
}

/// The name under which the model sees a tool of a provider whose name
/// holds no underscore resolves to that provider and that tool.
pub proof fn law_offered_names_resolve(server: Seq<char>, tool: Seq<char>)
    requires
        !server.contains('_'),
    ensures
        mcp_tool_name(agent_tool_name(server, tool)) == Some((server, tool)),
{
    reveal_strlit("mcp_");
    reveal_strlit("_");
    let name = agent_tool_name(server, tool);
    assert(name.subrange(0, 4) =~= "mcp_"@);
    let rest = name.skip(4);
    assert(rest =~= server + "_"@ + tool);
    assert forall|k: int| 0 <= k < server.len() implies rest[k] != '_' by {
        assert(rest[k] == server[k]);
        assert(server.contains(server[k]));
    }
    assert(rest[server.len() as int] == '_');
    lemma_index_of_is(rest, '_', server.len() as int);
    assert(rest.take(server.len() as int) =~= server);
    assert(rest.skip(server.len() as int + 1) =~= tool);
}

impl Agent {
    /// An agent with these settings.
    pub fn new(config: Config) -> (a: Self)
        ensures
            a.config == config,
    {
        Agent { config }
    }

    /// The tools offered to the model, from the tools that the providers
    /// list: each under the name `mcp_<provider>_<tool>`.
    pub fn get_tools(listed: Vec<(String, McpTool)>) -> (tools: Vec<Tool>)
        ensures
            tools@.len() == listed@.len(),
            forall|i: int|
                0 <= i < tools@.len() ==> is_agent_tool(
                    #[trigger] tools@[i],
                    listed@[i].0@,
                    listed@[i].1.deep_view(),
                ),
    {
        let mut tools: Vec<Tool> = Vec::new();
        let mut i: usize = 0;
        while i < listed.len()
            invariant
                i <= listed@.len(),
                tools@.len() == i,
                forall|k: int|
                    0 <= k < i ==> is_agent_tool(
                        #[trigger] tools@[k],
                        listed@[k].0@,
                        listed@[k].1.deep_view(),
                    ),
            decreases listed@.len() - i,
        {
            let server = &listed[i].0;
            let offered = &listed[i].1;
            let mut name = "mcp_".to_owned();
            name.append(server.as_str());
            name.append("_");
            name.append(offered.name.as_str());
            let description = match &offered.description {
                Some(d) => d.clone(),
                None => "MCP tool from ".to_owned().concat(server.as_str()),
            };
            tools.push(
                Tool {
                    tool_type: "function".to_owned(),
                    function: FunctionDefinition {
                        name,
                        description,
                        parameters: offered.input_schema.clone(),
                    },
                },
            );
            i = i + 1;
        }
        tools
    }

    /// Resolves a name seen by the model to a provider and a tool.
    pub fn parse_mcp_tool_name(name: &str) -> (r: Option<(String, String)>)
        ensures
            r.deep_view() == mcp_tool_name(name@),
    {
        let chars = text::to_chars(name);
        let prefix = text::to_chars("mcp_");
        let n: usize = chars.len();
        proof {
            reveal_strlit("mcp_");
        }
        if !text::matches_at(&chars, 0, n, &prefix) {
            proof {
                if name@.len() >= 4 {
                    assert(name@.subrange(0, 4) =~= chars@.subrange(0int, 0int + prefix@.len()));
                }
            }
            return None;
        }
        assert(name@.subrange(0, 4) =~= chars@.subrange(0int, 0int + prefix@.len()));
        let at = text::find_char(&chars, 4, n, '_');
        let ghost rest = name@.skip(4);
        proof {
            assert(rest =~= chars@.subrange(4, n as int));
            text::lemma_index_of(rest, '_');
        }
        if at >= n {
            return None;
        }
        let server = text::substring(&chars, 4, at);
        let tool = text::substring(&chars, at + 1, n);
        proof {
            assert(chars@.subrange(4, at as int) =~= rest.take(at - 4));
            assert(chars@.subrange(at + 1, n as int) =~= rest.skip(at - 4 + 1));
        }
        Some((server, tool))
    }

    /// Resolves a tool call that the model asked for: the provider and the
    /// tool from the name, the arguments from their JSON text. A name that
    /// stands for no provider's tool is refused, and so are arguments that
    /// are no JSON.
    pub fn execute_tool(tool_name: &str, args_json: &str) -> (r: Result<ToolCallPlan, AgentError>)
        ensures
            match r {
                Ok(plan) => {
                    &&& mcp_tool_name(tool_name@) == Some((plan.server@, plan.tool@))
                    &&& json_parse(args_json@) == Some(value_content(plan.arguments))
                },
                Err(e) => {
                    &&& e is ToolError
                    &&& mcp_tool_name(tool_name@) is None || json_parse(args_json@) is None
                    &&& mcp_tool_name(tool_name@) is None ==> e.detail() == "Unknown tool: "@
                        + tool_name@
                    &&& mcp_tool_name(tool_name@) is Some ==> "Invalid arguments: "@.is_prefix_of(
                        e.detail(),
                    )
                },
            },
    {
        let (server, tool) = match Agent::parse_mcp_tool_name(tool_name) {
            Some(resolved) => resolved,
            None => {
                return Err(
                    AgentError::ToolError("Unknown tool: ".to_owned().concat(tool_name)),
                );
            },
        };
        match json::parse(args_json) {
            Ok(arguments) => Ok(ToolCallPlan { server, tool, arguments }),
            Err(e) => Err(
                AgentError::ToolError(
                    "Invalid arguments: ".to_owned().concat(json::error_text(&e).as_str()),
                ),
            ),
        }
    }
}

/// Where a run stands.
#[derive(Debug, Clone, Copy, PartialEq, Eq, Structural)]
pub enum RunPhase {
    /// The model was asked; its answer is awaited.
    AwaitingModel,
    /// A tool was called; its outcome is awaited.
    AwaitingTool,
    /// The run is over.
    Finished,
}

/// What a run asks for next.
#[derive(Debug)]
pub enum AgentAction {
    /// Ask the model, with the messages, the model and the tools of the run.
    AskModel,
    /// Call this tool with these arguments, given as JSON text.
    CallTool { name: String, arguments: String },
    /// The run is over, with this outcome.
    Finish(AgentResponse),
    /// The run is over, with this failure.
    Fail(AgentError),
}

/// A run of the agent: the conversation so far, the steps taken, and the
/// tool calls of the current round that are still to be made.
#[derive(Debug)]
pub struct AgentRun {
    messages: Vec<Message>,
    model: String,
    tools: Vec<Tool>,
    steps: Vec<AgentStep>,
    iterations: usize,
    pending: Vec<ToolCall>,
    next: usize,
    phase: RunPhase,
}

/// The content of a run.
pub struct RunView {
    pub messages: Seq<MessageView>,
    pub model: Seq<char>,
    /// The tools that the run offers to the model.
    pub tools: Seq<Tool>,
    pub steps: Seq<AgentStepView>,
    /// How often the model was asked, counting a last time that was not
    /// granted.
    pub iterations: usize,
    pub pending: Seq<ToolCallView>,
    pub next: usize,
    pub phase: RunPhase,
}

impl DeepView for AgentRun {
    type V = RunView;

    closed spec fn deep_view(&self) -> RunView {
        RunView {
            messages: self.messages.deep_view(),
            model: self.model@,
            tools: self.tools@,
            steps: self.steps.deep_view(),
            iterations: self.iterations,
            pending: self.pending.deep_view(),
            next: self.next,
            phase: self.phase,
        }
    }
}

/// A step that is about no tool.
pub open spec fn plain_step(step_type: StepType, content: Seq<char>) -> AgentStepView {
    AgentStepView { step_type, content, tool_name: None, tool_input: None, tool_output: None }
}

/// The step that records a tool call.
pub open spec fn call_step(call: ToolCallView) -> AgentStepView {
    AgentStepView {
        step_type: StepType::ToolCall,
        content: "Calling: "@ + call.name,
        tool_name: Some(call.name),
        tool_input: Some(call.arguments),
        tool_output: None,
    }
}

/// The text that a tool's outcome adds to the conversation: the tool's text,
/// or the failure after `Error: `.
pub open spec fn outcome_text(outcome: Result<String, AgentError>) -> Seq<char> {
    match outcome {
        Ok(text) => text@,
        Err(e) => "Error: "@ + e.text(),
    }
}

/// The step that records a tool's outcome.
pub open spec fn outcome_step(call: ToolCallView, outcome: Result<String, AgentError>) -> AgentStepView {
    AgentStepView {
        step_type: if outcome is Ok {
            StepType::ToolResult
        } else {
            StepType::Error
        },
        content: outcome_text(outcome),
        tool_name: Some(call.name),
        tool_input: None,
        tool_output: Some(outcome_text(outcome)),
    }
}

/// The tool call of a message for a tool call that the model asked for.
pub open spec fn message_call(call: ToolCallView) -> MessageToolCallView {
    MessageToolCallView {
        id: call.id,
        call_type: "function"@,
        name: call.name,
        arguments: call.arguments,
    }
}

/// The message that records what the model asked for.
pub open spec fn asking_message(content: Option<Seq<char>>, calls: Seq<ToolCallView>) -> MessageView {
    MessageView {
        role: Role::Assistant,
        content,
        name: None,
        tool_calls: Some(Seq::new(calls.len(), |i: int| message_call(calls[i]))),
        tool_call_id: None,
    }
}

/// The message that answers a tool call.
pub open spec fn answer_message(call: ToolCallView, outcome: Result<String, AgentError>) -> MessageView {
    MessageView {
        role: Role::Tool,
        content: Some(outcome_text(outcome)),
        name: None,
        tool_calls: None,
        tool_call_id: Some(call.id),
    }
}

/// The answer of a run that ran out of iterations: the content of the last
/// step that is a thought or a tool's result, or a note that there is none.
pub open spec fn incomplete_answer(steps: Seq<AgentStepView>) -> Seq<char>
    decreases steps.len(),
{
    if steps.len() == 0 {
        "Task incomplete: iteration limit reached."@
    } else if steps.last().step_type == StepType::Thinking || steps.last().step_type
        == StepType::ToolResult {
        steps.last().content
    } else {
        incomplete_answer(steps.drop_last())
    }
}

/// The messages that a run begins with: the system prompt, the conversation
/// so far, and the user's message.
pub open spec fn opening_messages(
    system_prompt: Seq<char>,
    history: Seq<MessageView>,
    user_message: Seq<char>,
) -> Seq<MessageView> {
    (seq![plain_message(Role::System, system_prompt)] + history).push(
        plain_message(Role::User, user_message),
    )
}

impl RunView {
    /// What holds of every run: it asks the model at most `MAX_ITERATIONS`
    /// times, and while a tool is awaited that tool is one of the pending
    /// ones.
    pub open spec fn wf(self) -> bool {
        &&& self.iterations <= MAX_ITERATIONS + 1
        &&& self.phase != RunPhase::Finished ==> 1 <= self.iterations <= MAX_ITERATIONS
        &&& self.phase == RunPhase::AwaitingTool ==> self.next < self.pending.len()
    }

    /// Whether the model may be asked once more.
    pub open spec fn may_ask(self) -> bool {
        self.iterations < MAX_ITERATIONS
    }

    /// The run at the start of a round: the model is asked once more, or,
    /// where the limit is reached, the run ends with a step that says so.
    pub open spec fn begin_round(self) -> RunView {
        if self.may_ask() {
            RunView {
                iterations: (self.iterations + 1) as usize,
                phase: RunPhase::AwaitingModel,
                ..self
            }
        } else {
            RunView {
                iterations: (self.iterations + 1) as usize,
                steps: self.steps.push(
                    plain_step(StepType::Error, "Maximum iterations reached"@),
                ),
                phase: RunPhase::Finished,
                ..self
            }
        }
    }

    /// The run after the model answered without asking for a tool.
    pub open spec fn answered(self, content: Option<Seq<char>>) -> RunView {
        RunView {
            steps: self.steps.push(plain_step(StepType::FinalAnswer, final_text(content))),
            phase: RunPhase::Finished,
            ..self
        }
    }

    /// The run after the model asked for tools: a thought is recorded where
    /// the model said something, then what it asked for, then the call of
    /// the first tool.
    pub open spec fn asked(self, content: Option<Seq<char>>, calls: Seq<ToolCallView>) -> RunView {
        let thought = match content {
            Some(text) => if text.len() > 0 {
                seq![plain_step(StepType::Thinking, text)]
            } else {
                Seq::empty()
            },
            None => Seq::empty(),
        };
        RunView {
            messages: self.messages.push(asking_message(content, calls)),
            steps: (self.steps + thought).push(call_step(calls[0])),
            pending: calls,
            next: 0,
            phase: RunPhase::AwaitingTool,
            ..self
        }
    }

    /// The run after the awaited tool's outcome was recorded.
    pub open spec fn recorded(self, outcome: Result<String, AgentError>) -> RunView {
        let call = self.pending[self.next as int];
        RunView {
            messages: self.messages.push(answer_message(call, outcome)),
            steps: self.steps.push(outcome_step(call, outcome)),
            next: (self.next + 1) as usize,
            ..self
        }
    }

    /// The run after a tool's outcome: the next pending tool is called, or,
    /// after the last, a new round begins.
    pub open spec fn after_tool(self, outcome: Result<String, AgentError>) -> RunView {
        let r = self.recorded(outcome);
        if r.next < r.pending.len() {
            RunView { steps: r.steps.push(call_step(r.pending[r.next as int])), ..r }
        } else {
            r.begin_round()
        }
    }

    /// Whether `action` is what a run in this state asks for.
    pub open spec fn asks_for(self, action: AgentAction) -> bool {
        match self.phase {
            RunPhase::AwaitingModel => action is AskModel,
            RunPhase::AwaitingTool => (action matches AgentAction::CallTool { name, arguments }
                && name@ == self.pending[self.next as int].name && arguments@
                == self.pending[self.next as int].arguments),
            RunPhase::Finished => true,
        }
    }

    /// Whether `response` is the outcome of a run that ended in this state
    /// with this answer.
    pub open spec fn ends_with(self, response: AgentResponse, answer: Seq<char>) -> bool {
        &&& response.steps.deep_view() == self.steps
        &&& response.final_answer@ == answer
        &&& response.iterations == self.iterations
    }
}

/// The final answer for what the model said: its text, or nothing.
pub open spec fn final_text(content: Option<Seq<char>>) -> Seq<char> {
    match content {
        Some(text) => text,
        None => Seq::empty(),
    }
}

/// A step that is about no tool.
fn make_step(step_type: StepType, content: String) -> (s: AgentStep)
    ensures
        s.deep_view() == plain_step(step_type, content@),
{
    AgentStep { step_type, content, tool_name: None, tool_input: None, tool_output: None }
}

/// The step that records a tool call.
fn make_call_step(call: &ToolCall) -> (s: AgentStep)
    ensures
        s.deep_view() == call_step(call.deep_view()),
{
    AgentStep {
        step_type: StepType::ToolCall,
        content: "Calling: ".to_owned().concat(call.function.name.as_str()),
        tool_name: Some(call.function.name.clone()),
        tool_input: Some(call.function.arguments.clone()),
        tool_output: None,
    }
}

/// The answer of a run that ran out of iterations.
fn find_incomplete_answer(steps: &Vec<AgentStep>) -> (answer: String)
    ensures
        answer@ == incomplete_answer(steps.deep_view()),
{
    let mut i: usize = steps.len();
    assert(steps.deep_view().take(i as int) =~= steps.deep_view());
    while i > 0
        invariant
            i <= steps@.len(),
            incomplete_answer(steps.deep_view()) == incomplete_answer(
                steps.deep_view().take(i as int),
            ),
        decreases i,
    {
        let ghost upto = steps.deep_view().take(i as int);
        assert(upto.last() == steps@[i - 1].deep_view());
        assert(upto.drop_last() =~= steps.deep_view().take(i - 1));
        i = i - 1;
        match steps[i].step_type {
            StepType::Thinking => {
                return steps[i].content.clone();
            },
            StepType::ToolResult => {
                return steps[i].content.clone();
            },
            _ => {},
        }
    }
    "Task incomplete: iteration limit reached.".to_owned()
}

impl Agent {
    /// Begins a run: the conversation opens with the system prompt, the one
    /// given or that of the settings, then the conversation so far, then the
    /// user's message; the model is the one given or that of the settings.
    /// The first thing the run asks for is the model's answer.
    pub fn run(
        &self,
        user_message: &str,
        conversation_history: Vec<Message>,
        system_prompt: Option<String>,
        model: Option<String>,
        tools: Vec<Tool>,
    ) -> (run: AgentRun)
        ensures
            run.deep_view().wf(),
            run.deep_view() == (RunView {
                messages: opening_messages(
                    match system_prompt {
                        Some(p) => p@,
                        None => self.config.system_prompt@,
                    },
                    conversation_history.deep_view(),
                    user_message@,
                ),
                model: match model {
                    Some(m) => m@,
                    None => self.config.default_model@,
                },
                tools: tools@,
                steps: Seq::empty(),
                iterations: 1,
                pending: Seq::empty(),
                next: 0,
                phase: RunPhase::AwaitingModel,
            }),
    {
        let prompt = match system_prompt {
            Some(p) => p,
            None => self.config.system_prompt.clone(),
        };
        let ghost history = conversation_history.deep_view();
        let mut messages = conversation_history;
        messages.insert(0, Message::system(prompt.as_str()));
        messages.push(Message::user(user_message));
        let model = match model {
            Some(m) => m,
            None => self.config.default_model.clone(),
        };
        let run = AgentRun {
            messages,
            model,
            tools,
            steps: Vec::new(),
            iterations: 1,
            pending: Vec::new(),
            next: 0,
            phase: RunPhase::AwaitingModel,
        };
        assert(run.messages.deep_view() =~= opening_messages(prompt@, history, user_message@));
        assert(run.steps.deep_view() =~= Seq::<AgentStepView>::empty());
        assert(run.pending.deep_view() =~= Seq::<ToolCallView>::empty());
        run
    }

    /// The outcome of a run in which the model answered without asking for
    /// a tool: the steps so far and a last step with the answer.
    pub fn create_final_response(steps: Vec<AgentStep>, content: &Option<String>, iterations: usize) -> (r:
        AgentResponse)
        ensures
            r.steps.deep_view() == steps.deep_view().push(
                plain_step(StepType::FinalAnswer, final_text(content.deep_view())),
            ),
            r.final_answer@ == final_text(content.deep_view()),
            r.iterations == iterations,
    {
        let final_answer = match content {
            Some(text) => text.clone(),
            None => String::new(),
        };
        let mut steps = steps;
        let ghost before = steps.deep_view();
        let last = make_step(StepType::FinalAnswer, final_answer.clone());
        steps.push(last);
        assert(steps.deep_view() =~= before.push(last.deep_view()));
        AgentResponse { steps, final_answer, iterations }
    }
}

impl AgentRun {
    /// The messages of the conversation so far.
    pub fn messages(&self) -> (m: &Vec<Message>)
        ensures
            m.deep_view() == self.deep_view().messages,
    {
        &self.messages
    }

    /// The model that the run asks.
    pub fn model(&self) -> (m: &String)
        ensures
            m@ == self.deep_view().model,
    {
        &self.model
    }

    /// The tools that the run offers to the model.
    pub fn tools(&self) -> (t: &Vec<Tool>)
        ensures
            t@ == self.deep_view().tools,
    {
        &self.tools
    }

    /// The steps taken so far.
    pub fn steps(&self) -> (s: &Vec<AgentStep>)
        ensures
            s.deep_view() == self.deep_view().steps,
    {
        &self.steps
    }

    /// How often the model was asked.
    pub fn iterations(&self) -> (n: usize)
        ensures
            n == self.deep_view().iterations,
    {
        self.iterations
    }

    /// Where the run stands.
    pub fn phase(&self) -> (p: RunPhase)
        ensures
            p == self.deep_view().phase,
    {
        self.phase
    }

    /// Begins a round: asks the model once more, or ends the run where the
    /// limit is reached.
    fn begin_round(&mut self) -> (action: AgentAction)
        requires
            old(self).deep_view().iterations <= MAX_ITERATIONS,
        ensures
            final(self).deep_view() == old(self).deep_view().begin_round(),
            old(self).deep_view().may_ask() ==> action is AskModel,
            !old(self).deep_view().may_ask() ==> (action matches AgentAction::Finish(response)
                && final(self).deep_view().ends_with(
                response,
                incomplete_answer(final(self).deep_view().steps),
            )),
    {
        self.iterations = self.iterations + 1;
        if self.iterations > MAX_ITERATIONS {
            let ghost before = self.steps.deep_view();
            let limit = make_step(StepType::Error, "Maximum iterations reached".to_owned());
            self.steps.push(limit);
            assert(self.steps.deep_view() =~= before.push(limit.deep_view()));
            self.phase = RunPhase::Finished;
            let final_answer = find_incomplete_answer(&self.steps);
            let steps = self.copy_steps();
            AgentAction::Finish(AgentResponse { steps, final_answer, iterations: self.iterations })
        } else {
            self.phase = RunPhase::AwaitingModel;
            AgentAction::AskModel
        }
    }

    /// A copy of the steps taken so far.
    fn copy_steps(&self) -> (steps: Vec<AgentStep>)
        ensures
            steps.deep_view() == self.deep_view().steps,
    {
        let mut steps: Vec<AgentStep> = Vec::new();
        let mut i: usize = 0;
        while i < self.steps.len()
            invariant
                i <= self.steps@.len(),
                steps@.len() == i,
                forall|k: int| 0 <= k < i ==> steps@[k].deep_view() == self.steps@[k].deep_view(),
            decreases self.steps@.len() - i,
        {
            let s = &self.steps[i];
            steps.push(
                AgentStep {
                    step_type: s.step_type,
                    content: s.content.clone(),
                    tool_name: match &s.tool_name {
                        Some(t) => Some(t.clone()),
                        None => None,
                    },
                    tool_input: match &s.tool_input {
                        Some(t) => Some(t.clone()),
                        None => None,
                    },
                    tool_output: match &s.tool_output {
                        Some(t) => Some(t.clone()),
                        None => None,
                    },
                },
            );
            i = i + 1;
        }
        assert(steps.deep_view() =~= self.steps.deep_view());
        steps
    }

    /// Takes the model's answer. A failure of the gateway ends the run, and
    /// so does an answer without a choice. An answer that asks for no tool
    /// is the final answer. Otherwise what the model asked for is recorded
    /// and its first tool is called.
    pub fn on_model(&mut self, reply: Result<ChatCompletionResponse, AgentError>) -> (action:
        AgentAction)
        requires
            old(self).deep_view().wf(),
            old(self).deep_view().phase == RunPhase::AwaitingModel,
        ensures
            final(self).deep_view().wf(),
            final(self).deep_view().asks_for(action),
            match reply {
                Err(e) => action == AgentAction::Fail(e) && final(self).deep_view() == (RunView {
                    phase: RunPhase::Finished,
                    ..old(self).deep_view()
                }),
                Ok(response) => if response.choices@.len() == 0 {
                    (action matches AgentAction::Fail(AgentError::ParseError(m)) && m@
                        == "No choices in response"@) && final(self).deep_view() == (RunView {
                        phase: RunPhase::Finished,
                        ..old(self).deep_view()
                    })
                } else {
                    let message = response.choices@[0].message;
                    let content = message.content.deep_view();
                    match message.tool_calls {
                        Some(calls) if calls@.len() > 0 => final(self).deep_view() == old(self).deep_view().asked(content, calls.deep_view()),
                        _ => final(self).deep_view() == old(self).deep_view().answered(content)
                            && (action matches AgentAction::Finish(r) && final(self).deep_view().ends_with(r, final_text(content))),
                    }
                },
            },
    {
        let response = match reply {
            Ok(response) => response,
            Err(e) => {
                self.phase = RunPhase::Finished;
                return AgentAction::Fail(e);
            },
        };
        let mut choices = response.choices;
        if choices.len() == 0 {
            self.phase = RunPhase::Finished;
            return AgentAction::Fail(AgentError::ParseError("No choices in response".to_owned()));
        }
        let message = choices.remove(0).message;
        let content = message.content;
        let calls = match message.tool_calls {
            Some(calls) => calls,
            None => Vec::new(),
        };
        if calls.len() == 0 {
            let ghost before = self.steps.deep_view();
            let answer = match &content {
                Some(text) => text.clone(),
                None => String::new(),
            };
            let last = make_step(StepType::FinalAnswer, answer.clone());
            self.steps.push(last);
            assert(self.steps.deep_view() =~= before.push(last.deep_view()));
            self.phase = RunPhase::Finished;
            let steps = self.copy_steps();
            return AgentAction::Finish(
                AgentResponse { steps, final_answer: answer, iterations: self.iterations },
            );
        }
        let ghost steps_before = self.steps.deep_view();
        match &content {
            Some(text) => {
                if !text.as_str().is_empty() {
                    let thought = make_step(StepType::Thinking, text.clone());
                    self.steps.push(thought);
                    assert(self.steps.deep_view() =~= steps_before + seq![thought.deep_view()]);
                } else {
                    assert(steps_before + Seq::<AgentStepView>::empty() =~= steps_before);
                }
            },
            None => {
                assert(steps_before + Seq::<AgentStepView>::empty() =~= steps_before);
            },
        }
        let mut asked: Vec<MessageToolCall> = Vec::new();
        let mut i: usize = 0;
        while i < calls.len()
            invariant
                i <= calls@.len(),
                asked@.len() == i,
                forall|k: int|
                    0 <= k < i ==> asked@[k].deep_view() == message_call(calls@[k].deep_view()),
            decreases calls@.len() - i,
        {
            asked.push(
                MessageToolCall {
                    id: calls[i].id.clone(),
                    call_type: "function".to_owned(),
                    function: MessageFunctionCall {
                        name: calls[i].function.name.clone(),
                        arguments: calls[i].function.arguments.clone(),
                    },
                },
            );
            i = i + 1;
        }
        let ghost messages_before = self.messages.deep_view();
        let asking = Message::assistant_with_tool_calls(content, asked);
        assert(asking.deep_view().tool_calls->0 =~= asking_message(
            content.deep_view(),
            calls.deep_view(),
        ).tool_calls->0);
        self.messages.push(asking);
        assert(self.messages.deep_view() =~= messages_before.push(asking.deep_view()));
        let ghost steps_middle = self.steps.deep_view();
        let first = make_call_step(&calls[0]);
        self.steps.push(first);
        assert(self.steps.deep_view() =~= steps_middle.push(first.deep_view()));
        let action = AgentAction::CallTool {
            name: calls[0].function.name.clone(),
            arguments: calls[0].function.arguments.clone(),
        };
        self.pending = calls;
        self.next = 0;
        self.phase = RunPhase::AwaitingTool;
        action
    }

    /// Takes the outcome of the tool that was called: it is recorded as a
    /// step and as a message of the conversation. Then the next tool that
    /// the model asked for is called, or, after the last, the model is asked
    /// again, unless the limit is reached.
    pub fn on_tool(&mut self, outcome: Result<String, AgentError>) -> (action: AgentAction)
        requires
            old(self).deep_view().wf(),
            old(self).deep_view().phase == RunPhase::AwaitingTool,
        ensures
            final(self).deep_view().wf(),
            final(self).deep_view() == old(self).deep_view().after_tool(outcome),
            final(self).deep_view().asks_for(action),
            final(self).deep_view().phase == RunPhase::Finished ==> (action matches AgentAction::Finish(
                response,
            ) && final(self).deep_view().ends_with(
                response,
                incomplete_answer(final(self).deep_view().steps),
            )),
    {
        let ghost before = self.deep_view();
        let ghost call = before.pending[before.next as int];
        assert(call == self.pending@[self.next as int].deep_view());
        let (step_type, text) = match &outcome {
            Ok(text) => (StepType::ToolResult, text.clone()),
            Err(e) => (StepType::Error, "Error: ".to_owned().concat(e.message().as_str())),
        };
        assert(text@ == outcome_text(outcome));
        let done = AgentStep {
            step_type,
            content: text.clone(),
            tool_name: Some(self.pending[self.next].function.name.clone()),
            tool_input: None,
            tool_output: Some(text.clone()),
        };
        assert(done.deep_view() == outcome_step(call, outcome));
        self.steps.push(done);
        assert(self.steps.deep_view() =~= before.steps.push(done.deep_view()));
        let answer = Message::tool_result(self.pending[self.next].id.as_str(), text.as_str());
        self.messages.push(answer);
        assert(self.messages.deep_view() =~= before.messages.push(answer.deep_view()));
        let pending: usize = self.pending.len();
        assert(self.next < pending);
        self.next = self.next + 1;
        assert(self.deep_view() == before.recorded(outcome));
        if self.next < self.pending.len() {
            let ghost middle = self.steps.deep_view();
            let next_call = make_call_step(&self.pending[self.next]);
            self.steps.push(next_call);
            assert(self.steps.deep_view() =~= middle.push(next_call.deep_view()));
            AgentAction::CallTool {
                name: self.pending[self.next].function.name.clone(),
                arguments: self.pending[self.next].function.arguments.clone(),
            }
        } else {
            self.begin_round()
        }
    }
}

} // verus!
