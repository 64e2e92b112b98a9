//! The messages of a conversation and the data exchanged with the language
//! model gateway and with the clients of the service.

use vstd::prelude::*;

verus! {

/// Who a message is from.
#[derive(Debug, Clone, Copy, PartialEq, Eq, Structural)]
pub enum Role {
    System,
    User,
    Assistant,
    Tool,
}

/// A message of a conversation.
#[derive(Debug, Clone)]
pub struct Message {
    pub role: Role,
    pub content: Option<String>,
    pub name: Option<String>,
    /// The tool calls that an assistant message asks for.
    pub tool_calls: Option<Vec<MessageToolCall>>,
    /// The tool call that a tool message answers.
    pub tool_call_id: Option<String>,
}

/// A tool call in a message that is sent.
#[derive(Debug, Clone)]
pub struct MessageToolCall {
    pub id: String,
    pub call_type: String,
    pub function: MessageFunctionCall,
}

/// The function of a tool call, with its arguments as JSON text.
#[derive(Debug, Clone)]
pub struct MessageFunctionCall {
    pub name: String,
    pub arguments: String,
}

impl Message {
    /// Whether the message has this role and this text, and nothing else.
    pub open spec fn is_plain(&self, role: Role, content: Seq<char>) -> bool {
        &&& self.role == role
        &&& self.content matches Some(c) && c@ == content
        &&& self.name is None
        &&& self.tool_calls is None
        &&& self.tool_call_id is None
    }

    /// A system message.
    pub fn system(content: &str) -> (m: Self)
        ensures
            m.is_plain(Role::System, content@),
            m.deep_view() == plain_message(Role::System, content@),
    {
        Message {
            role: Role::System,
            content: Some(content.to_owned()),
            name: None,
            tool_calls: None,
            tool_call_id: None,
        }
    }

    /// A user message.
    pub fn user(content: &str) -> (m: Self)
        ensures
            m.is_plain(Role::User, content@),
            m.deep_view() == plain_message(Role::User, content@),
    {
        Message {
            role: Role::User,
            content: Some(content.to_owned()),
            name: None,
            tool_calls: None,
            tool_call_id: None,
        }
    }

    /// An assistant message.
    pub fn assistant(content: &str) -> (m: Self)
        ensures
            m.is_plain(Role::Assistant, content@),
            m.deep_view() == plain_message(Role::Assistant, content@),
    {
        Message {
            role: Role::Assistant,
            content: Some(content.to_owned()),
            name: None,
            tool_calls: None,
            tool_call_id: None,
        }
    }

    /// An assistant message that asks for tool calls.
    pub fn assistant_with_tool_calls(content: Option<String>, tool_calls: Vec<MessageToolCall>) -> (m:
        Self)
        ensures
            m.role == Role::Assistant,
            m.content == content,
            m.name is None,
            m.tool_calls == Some(tool_calls),
            m.tool_call_id is None,
            m.deep_view() == (MessageView {
                role: Role::Assistant,
                content: content.deep_view(),
                name: None,
                tool_calls: Some(tool_calls.deep_view()),
                tool_call_id: None,
            }),
    {
        Message {
            role: Role::Assistant,
            content,
            name: None,
            tool_calls: Some(tool_calls),
            tool_call_id: None,
        }
    }

    /// The message that answers a tool call.
    pub fn tool_result(tool_call_id: &str, content: &str) -> (m: Self)
        ensures
            m.role == Role::Tool,
            m.content matches Some(c) && c@ == content@,
            m.name is None,
            m.tool_calls is None,
            m.tool_call_id matches Some(id) && id@ == tool_call_id@,
            m.deep_view() == (MessageView {
                role: Role::Tool,
                content: Some(content@),
                name: None,
                tool_calls: None,
                tool_call_id: Some(tool_call_id@),
            }),
    {
        Message {
            role: Role::Tool,
            content: Some(content.to_owned()),
            name: None,
            tool_calls: None,
            tool_call_id: Some(tool_call_id.to_owned()),
        }
    }
}

/// A tool offered to the language model.
#[derive(Debug, Clone)]
pub struct Tool {
    pub tool_type: String,
    pub function: FunctionDefinition,
}

/// The function behind a tool: its name, what it does, and the JSON schema
/// of its parameters.
#[derive(Debug, Clone)]
pub struct FunctionDefinition {
    pub name: String,
    pub description: String,
    pub parameters: serde_json::Value,
}

/// A completion, as the gateway answers it.
#[derive(Debug)]
pub struct ChatCompletionResponse {
    pub id: String,
    pub choices: Vec<Choice>,
    pub model: String,
    pub usage: Option<Usage>,
}

/// One alternative of a completion.
#[derive(Debug)]
pub struct Choice {
    pub index: u32,
    pub message: ResponseMessage,
    pub finish_reason: Option<String>,
}

/// The message of an alternative.
#[derive(Debug)]
pub struct ResponseMessage {
    pub role: String,
    pub content: Option<String>,
    pub tool_calls: Option<Vec<ToolCall>>,
}

/// A tool call that the model asks for.
#[derive(Debug)]
pub struct ToolCall {
    pub id: String,
    pub call_type: String,
    pub function: FunctionCall,
}

/// The function of a tool call that the model asks for.
#[derive(Debug)]
pub struct FunctionCall {
    pub name: String,
    pub arguments: String,
}

/// The token counts of a completion.
#[derive(Debug)]
pub struct Usage {
    pub prompt_tokens: u32,
    pub completion_tokens: u32,
    pub total_tokens: u32,
}

/// One chunk of a streamed completion.
#[derive(Debug)]
pub struct ChatCompletionChunk {
    pub id: String,
    pub choices: Vec<StreamChoice>,
    pub model: Option<String>,
}

/// One alternative of a chunk.
#[derive(Debug)]
pub struct StreamChoice {
    pub index: u32,
    pub delta: Delta,
    pub finish_reason: Option<String>,
}

/// What a chunk adds to a message.
#[derive(Debug)]
pub struct Delta {
    pub role: Option<String>,
    pub content: Option<String>,
    pub tool_calls: Option<Vec<ToolCallDelta>>,
}

/// What a chunk adds to a tool call.
#[derive(Debug)]
pub struct ToolCallDelta {
    pub index: u32,
    pub id: Option<String>,
    pub call_type: Option<String>,
    pub function: Option<FunctionCallDelta>,
}

/// What a chunk adds to the function of a tool call.
#[derive(Debug)]
pub struct FunctionCallDelta {
    pub name: Option<String>,
    pub arguments: Option<String>,
}

/// The answer of the service to a completion request.
#[derive(Debug)]
pub struct AgentResponse {
    pub id: String,
    pub content: String,
    pub model: String,
    pub usage: Option<UsageInfo>,
    pub finish_reason: Option<String>,
}

/// The token counts in an answer of the service.
#[derive(Debug)]
pub struct UsageInfo {
    pub prompt_tokens: u32,
    pub completion_tokens: u32,
    pub total_tokens: u32,
}

/// The body of an answer that reports a failure.
#[derive(Debug)]
pub struct ErrorResponse {
    pub error: String,
    pub code: String,
}

/// The content of a tool call in a message.
pub struct MessageToolCallView {
    pub id: Seq<char>,
    pub call_type: Seq<char>,
    pub name: Seq<char>,
    pub arguments: Seq<char>,
}

impl DeepView for MessageToolCall {
    type V = MessageToolCallView;

    open spec fn deep_view(&self) -> MessageToolCallView {
        MessageToolCallView {
            id: self.id@,
            call_type: self.call_type@,
            name: self.function.name@,
            arguments: self.function.arguments@,
        }
    }
}

/// The content of a message.
pub struct MessageView {
    pub role: Role,
    pub content: Option<Seq<char>>,
    pub name: Option<Seq<char>>,
    pub tool_calls: Option<Seq<MessageToolCallView>>,
    pub tool_call_id: Option<Seq<char>>,
}

impl DeepView for Message {
    type V = MessageView;

    open spec fn deep_view(&self) -> MessageView {
        MessageView {
            role: self.role,
            content: self.content.deep_view(),
            name: self.name.deep_view(),
            tool_calls: self.tool_calls.deep_view(),
            tool_call_id: self.tool_call_id.deep_view(),
        }
    }
}

/// The content of a message with a role and a text, and nothing else.
pub open spec fn plain_message(role: Role, content: Seq<char>) -> MessageView {
    MessageView { role, content: Some(content), name: None, tool_calls: None, tool_call_id: None }
}

/// The content of a tool call that the model asks for.
pub struct ToolCallView {
    pub id: Seq<char>,
    pub call_type: Seq<char>,
    pub name: Seq<char>,
    pub arguments: Seq<char>,
}

impl DeepView for ToolCall {
    type V = ToolCallView;

    open spec fn deep_view(&self) -> ToolCallView {
        ToolCallView {
            id: self.id@,
            call_type: self.call_type@,
            name: self.function.name@,
            arguments: self.function.arguments@,
        }
    }
}

} // verus!
