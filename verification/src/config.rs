//! The settings of the service, taken from environment variables.

use crate::number::{parse_u16, parse_u16_text};
use vstd::prelude::*;

verus! {

/// The system prompt that is used where none is set.
pub const DEFAULT_SYSTEM_PROMPT: &'static str =
    "You are a helpful AI assistant with access to MCP tools. Use tools when needed, explain your reasoning, and provide helpful responses.";

/// The port that the service listens on where none is set.
pub const DEFAULT_PORT: u16 = 3000;

/// The settings of the service.
#[derive(Clone, Debug)]
pub struct Config {
    pub openrouter_api_key: String,
    pub openrouter_base_url: String,
    pub default_model: String,
    pub server_host: String,
    pub server_port: u16,
    pub system_prompt: String,
}

/// The value of a variable in an environment: that of the first entry of
/// this name, or `None`.
pub open spec fn var(env: Seq<(Seq<char>, Seq<char>)>, name: Seq<char>) -> Option<Seq<char>>
    decreases env.len(),
{
    if env.len() == 0 {
        None
    } else if env[0].0 == name {
        Some(env[0].1)
    } else {
        var(env.drop_first(), name)
    }
}

/// The value of a variable, or a default where it is not set.
pub open spec fn var_or(env: Seq<(Seq<char>, Seq<char>)>, name: Seq<char>, default: Seq<char>) -> Seq<
    char,
> {
    match var(env, name) {
        Some(value) => value,
        None => default,
    }
}

/// The port that an environment sets: the number in `SERVER_PORT`, and the
/// default where the variable is not set or is no port number.
pub open spec fn port_of(env: Seq<(Seq<char>, Seq<char>)>) -> u16 {
    match parse_u16(var_or(env, "SERVER_PORT"@, "3000"@)) {
        Some(port) => port,
        None => DEFAULT_PORT,
    }
}

/// Looks a variable up in an environment.
pub fn find_var(env: &Vec<(String, String)>, name: &str) -> (value: Option<String>)
    ensures
        value.deep_view() == var(env.deep_view(), name@),
{
    let mut i: usize = 0;
    assert(env.deep_view().skip(0) =~= env.deep_view());
    while i < env.len()
        invariant
            i <= env@.len(),
            var(env.deep_view(), name@) == var(env.deep_view().skip(i as int), name@),
        decreases env@.len() - i,
    {
        let ghost rest = env.deep_view().skip(i as int);
        assert(rest[0] == env.deep_view()[i as int]);
        assert(rest.drop_first() =~= env.deep_view().skip(i + 1));
        if *env[i].0.as_str() == *name {
            return Some(env[i].1.clone());
        }
        i = i + 1;
    }
    None
}

/// Looks a variable up in an environment, with a default.
pub fn find_var_or(env: &Vec<(String, String)>, name: &str, default: &str) -> (value: String)
    ensures
        value@ == var_or(env.deep_view(), name@, default@),
{
    match find_var(env, name) {
        Some(value) => value,
        None => default.to_owned(),
    }
}

impl Config {
    /// The settings that an environment gives. The API key must be set;
    /// everything else has a default. The result is `None` where the key is
    /// missing.
    pub fn from_env(env: &Vec<(String, String)>) -> (r: Option<Self>)
        ensures
            r is Some <==> var(env.deep_view(), "OPENROUTER_API_KEY"@) is Some,
            r matches Some(c) ==> {
                &&& Some(c.openrouter_api_key@) == var(env.deep_view(), "OPENROUTER_API_KEY"@)
                &&& c.openrouter_base_url@ == var_or(
                    env.deep_view(),
                    "OPENROUTER_BASE_URL"@,
                    "https://openrouter.ai/api/v1"@,
                )
                &&& c.default_model@ == var_or(
                    env.deep_view(),
                    "DEFAULT_MODEL"@,
                    "openrouter/auto"@,
                )
                &&& c.server_host@ == var_or(env.deep_view(), "SERVER_HOST"@, "0.0.0.0"@)
                &&& c.server_port == port_of(env.deep_view())
                &&& c.system_prompt@ == var_or(
                    env.deep_view(),
                    "SYSTEM_PROMPT"@,
                    DEFAULT_SYSTEM_PROMPT@,
                )
            },
    {
        let key = match find_var(env, "OPENROUTER_API_KEY") {
            Some(key) => key,
            None => {
                return None;
            },
        };
        let port_text = find_var_or(env, "SERVER_PORT", "3000");
        let port = match parse_u16_text(port_text.as_str()) {
            Some(port) => port,
            None => DEFAULT_PORT,
        };
        Some(
            Config {
                openrouter_api_key: key,
                openrouter_base_url: find_var_or(
                    env,
                    "OPENROUTER_BASE_URL",
                    "https://openrouter.ai/api/v1",
                ),
                default_model: find_var_or(env, "DEFAULT_MODEL", "openrouter/auto"),
                server_host: find_var_or(env, "SERVER_HOST", "0.0.0.0"),
                server_port: port,
                system_prompt: find_var_or(env, "SYSTEM_PROMPT", DEFAULT_SYSTEM_PROMPT),
            },
        )
    }
}

} // verus!
