//! The bodies of the requests and answers of the service's routes.

use crate::agent::AgentStep;
use crate::error::AgentError;
use crate::models::{
    AgentResponse, ChatCompletionChunk, ChatCompletionResponse, Message, Usage, UsageInfo,
};
use serde_json::Value;
use vstd::prelude::*;
use vstd::string::StringExecFns;

verus! {

/// The answer to a chat with the agent.
#[derive(Debug)]
pub struct AgentChatResponse {
    pub id: String,
    pub message: String,
    pub model: String,
    pub usage: Option<UsageInfo>,
    pub steps: Option<Vec<AgentStep>>,
}

/// The request for a run of the agent.
#[derive(Debug)]
pub struct AgentRunRequest {
    pub message: String,
    pub conversation: Vec<Message>,
    pub system_prompt: Option<String>,
    pub model: Option<String>,
}

/// The answer to a run of the agent.
#[derive(Debug)]
pub struct AgentRunResponse {
    pub id: String,
    pub final_answer: String,
    pub steps: Vec<AgentStep>,
    pub iterations: usize,
}

/// The request for a tool call under a composite name.
#[derive(Debug)]
pub struct McpToolCallRequest {
    pub tool_name: String,
    pub arguments: Value,
}

/// The request to enable or to disable a provider.
#[derive(Debug)]
pub struct McpServerToggleRequest {
    pub server_name: String,
}

/// The system prompt of a chat where the request sets none.
pub const DEFAULT_CHAT_PROMPT: &'static str =
    "You are a helpful AI assistant. Be concise and helpful in your responses.";

/// The messages of a completion request: the conversation, after a system
/// message where the request sets a system prompt.
pub fn completion_messages(messages: Vec<Message>, system_prompt: Option<String>) -> (out: Vec<
    Message,
>)
    ensures
        match system_prompt {
            Some(prompt) => out@.len() == messages@.len() + 1 && out@[0].is_plain(
                crate::models::Role::System,
                prompt@,
            ) && out@.skip(1) == messages@,
            None => out == messages,
        },
{
    let mut out = messages;
    match system_prompt {
        Some(prompt) => {
            let ghost before = out@;
            out.insert(0, Message::system(prompt.as_str()));
            assert(out@.skip(1) =~= before);
        },
        None => {},
    }
    out
}

/// The messages of a chat with the agent: a system message with the
/// request's system prompt or the default one, then the conversation, then
/// the user's message.
pub fn chat_messages(message: &str, conversation: Vec<Message>, system_prompt: Option<String>) -> (out:
    Vec<Message>)
    ensures
        out@.len() == conversation@.len() + 2,
        out@[0].is_plain(
            crate::models::Role::System,
            match system_prompt {
                Some(prompt) => prompt@,
                None => DEFAULT_CHAT_PROMPT@,
            },
        ),
        out@.subrange(1, out@.len() - 1) == conversation@,
        out@.last().is_plain(crate::models::Role::User, message@),
{
    let mut out = conversation;
    let ghost before = out@;
    let system = match &system_prompt {
        Some(prompt) => Message::system(prompt.as_str()),
        None => Message::system(DEFAULT_CHAT_PROMPT),
    };
    out.insert(0, system);
    out.push(Message::user(message));
    assert(out@.subrange(1, out@.len() - 1) =~= before);
    out
}

/// Whether the token counts of an answer are those of a completion.
pub open spec fn same_usage(usage: Option<Usage>, info: Option<UsageInfo>) -> bool {
    match (usage, info) {
        (Some(u), Some(i)) => i.prompt_tokens == u.prompt_tokens && i.completion_tokens
            == u.completion_tokens && i.total_tokens == u.total_tokens,
        (None, None) => true,
        _ => false,
    }
}

/// The token counts of an answer, from those of a completion.
pub fn usage_info(usage: Option<Usage>) -> (info: Option<UsageInfo>)
    ensures
        same_usage(usage, info),
{
    match usage {
        Some(u) => Some(
            UsageInfo {
                prompt_tokens: u.prompt_tokens,
                completion_tokens: u.completion_tokens,
                total_tokens: u.total_tokens,
            },
        ),
        None => None,
    }
}

/// The text of an optional text: the text, or nothing.
pub open spec fn text_or_empty(content: Option<String>) -> Seq<char> {
    match content {
        Some(text) => text@,
        None => Seq::empty(),
    }
}

/// The answer of the service to a completion request, from the gateway's
/// completion: the content and the finish reason of its first choice. A
/// completion without a choice is a failure.
pub fn completion_answer(response: ChatCompletionResponse) -> (r: Result<AgentResponse, AgentError>)
    ensures
        response.choices@.len() == 0 ==> (r matches Err(AgentError::ParseError(m)) && m@
            == "No choices in response"@),
        response.choices@.len() > 0 ==> (r matches Ok(answer) && answer.id == response.id
            && answer.content@ == text_or_empty(response.choices@[0].message.content)
            && answer.model == response.model && answer.finish_reason
            == response.choices@[0].finish_reason && same_usage(response.usage, answer.usage)),
{
    let mut choices = response.choices;
    if choices.len() == 0 {
        return Err(AgentError::ParseError("No choices in response".to_owned()));
    }
    let choice = choices.remove(0);
    let content = match choice.message.content {
        Some(text) => text,
        None => String::new(),
    };
    Ok(
        AgentResponse {
            id: response.id,
            content,
            model: response.model,
            usage: usage_info(response.usage),
            finish_reason: choice.finish_reason,
        },
    )
}

/// The answer to a chat with the agent, under the id that the caller
/// chose: the content of the completion's first choice, without steps. A
/// completion without a choice is a failure.
pub fn chat_answer(id: String, response: ChatCompletionResponse) -> (r: Result<
    AgentChatResponse,
    AgentError,
>)
    ensures
        response.choices@.len() == 0 ==> (r matches Err(AgentError::ParseError(m)) && m@
            == "No choices in response"@),
        response.choices@.len() > 0 ==> (r matches Ok(answer) && answer.id == id
            && answer.message@ == text_or_empty(response.choices@[0].message.content)
            && answer.model == response.model && answer.steps is None && same_usage(
            response.usage,
            answer.usage,
        )),
{
    let mut choices = response.choices;
    if choices.len() == 0 {
        return Err(AgentError::ParseError("No choices in response".to_owned()));
    }
    let choice = choices.remove(0);
    let message = match choice.message.content {
        Some(text) => text,
        None => String::new(),
    };
    Ok(
        AgentChatResponse {
            id,
            message,
            model: response.model,
            usage: usage_info(response.usage),
            steps: None,
        },
    )
}

/// The answer to a run of the agent, under the id that the caller chose.
pub fn run_answer(id: String, response: crate::agent::AgentResponse) -> (r: AgentRunResponse)
    ensures
        r.id == id,
        r.final_answer == response.final_answer,
        r.steps == response.steps,
        r.iterations == response.iterations,
{
    AgentRunResponse {
        id,
        final_answer: response.final_answer,
        steps: response.steps,
        iterations: response.iterations,
    }
}

/// The composite name of a provider's tool: the provider, an underscore,
/// the tool.
pub fn full_tool_name(server: &str, tool: &str) -> (name: String)
    ensures
        name@ == server@ + "_"@ + tool@,
{
    let mut name = server.to_owned();
    name.append("_");
    name.append(tool);
    name
}

/// What a chunk of a streamed completion adds: the content of its first
/// choice, or nothing, and the finish reason of that choice.
pub fn chunk_content(chunk: &ChatCompletionChunk) -> (r: (String, Option<String>))
    ensures
        chunk.choices@.len() == 0 ==> r.0@.len() == 0 && r.1 is None,
        chunk.choices@.len() > 0 ==> r.0@ == text_or_empty(chunk.choices@[0].delta.content)
            && r.1.deep_view() == chunk.choices@[0].finish_reason.deep_view(),
{
    if chunk.choices.len() == 0 {
        return (String::new(), None);
    }
    let first = &chunk.choices[0];
    let content = match &first.delta.content {
        Some(text) => text.clone(),
        None => String::new(),
    };
    let finish_reason = match &first.finish_reason {
        Some(reason) => Some(reason.clone()),
        None => None,
    };
    (content, finish_reason)
}

} // verus!
