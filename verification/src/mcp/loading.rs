//! Reading the configuration: placeholders in the raw text are replaced by
//! values of the environment, then the JSON is decoded.

use crate::json;
use crate::json::{
    json_parse, member, optional_text_member, value_content, JsonValue,
};
use crate::mcp::error::McpError;
use crate::mcp::manager::McpManager;
use crate::mcp::types::{McpConfig, McpServerConfig, McpServerConfigView};
use crate::text;
use crate::text::find_run;
use serde_json::Value;
use vstd::prelude::*;

verus! {

/// The pattern of a placeholder: `${NAME}`, where the name is one or more
/// word characters.
pub const PLACEHOLDER_PATTERN: &'static str = "\\$\\{(\\w+)\\}";

/// Trusted: `regex::Regex`, opaque to the verifier.
#[verifier::external_type_specification]
#[verifier::external_body]
pub struct ExRegex(regex::Regex);

/// Whether `Regex::new` of the `regex` crate accepts a pattern.
pub uninterp spec fn regex_valid(pattern: Seq<char>) -> bool;

/// The pattern that a regular expression was made from.
pub uninterp spec fn regex_source(re: regex::Regex) -> Seq<char>;

/// What `Regex::captures_iter` of the `regex` crate finds in a text for a
/// pattern: for each match, from left to right and without overlap, the
/// matched text and the text of the first group, if the group took part.
pub uninterp spec fn regex_captures(pattern: Seq<char>, text: Seq<char>) -> Seq<
    (Seq<char>, Option<Seq<char>>),
>;

/// Trusted: `Regex::new` of the `regex` crate. Whether it accepts the
/// pattern is named by `regex_valid`; what it makes is a regular expression
/// of that pattern.
#[verifier::external_body]
pub(crate) fn compile(pattern: &str) -> (r: Option<regex::Regex>)
    ensures
        r is Some == regex_valid(pattern@),
        r matches Some(re) ==> regex_source(re) == pattern@,
{
    regex::Regex::new(pattern).ok()
}

/// Trusted: `Regex::captures_iter` of the `regex` crate, with the text of
/// each match and of its first group. The result is named by
/// `regex_captures`; nothing more is claimed.
#[verifier::external_body]
pub(crate) fn captures(re: &regex::Regex, text: &str) -> (r: Vec<(String, Option<String>)>)
    ensures
        r.deep_view() == regex_captures(regex_source(*re), text@),
{
    re.captures_iter(text).map(
        |c| (c[0].to_string(), c.get(1).map(|m| m.as_str().to_string())),
    ).collect()
}

/// The value of a variable in an environment: that of the first entry of
/// this name, and the empty text where there is none.
pub open spec fn env_value(env: Seq<(Seq<char>, Seq<char>)>, name: Seq<char>) -> Seq<char>
    decreases env.len(),
{
    if env.len() == 0 {
        Seq::empty()
    } else if env[0].0 == name {
        env[0].1
    } else {
        env_value(env.drop_first(), name)
    }
}

/// What stands in the place of a placeholder that was found: the value of
/// the variable it names, or its own text where it names none.
pub open spec fn replacement(
    found: (Seq<char>, Option<Seq<char>>),
    env: Seq<(Seq<char>, Seq<char>)>,
) -> Seq<char> {
    match found.1 {
        Some(name) => env_value(env, name),
        None => found.0,
    }
}

/// The text after one pass over the placeholders found, from left to right:
/// each is looked for from where the one before it ended; what stands
/// before it is kept, and its replacement is put in its place. What a
/// replacement brings in is not looked at again, and what follows the last
/// placeholder is kept. A placeholder whose text does not occur from there
/// on is passed over.
pub open spec fn expand_captures(
    text: Seq<char>,
    found: Seq<(Seq<char>, Option<Seq<char>>)>,
    env: Seq<(Seq<char>, Seq<char>)>,
) -> Seq<char>
    decreases found.len(),
{
    if found.len() == 0 {
        text
    } else {
        let at = find_run(text, found[0].0);
        if found[0].0.len() > 0 && 0 <= at < text.len() {
            text.take(at) + replacement(found[0], env) + expand_captures(
                text.skip(at + found[0].0.len()),
                found.drop_first(),
                env,
            )
        } else {
            expand_captures(text, found.drop_first(), env)
        }
    }
}

/// The text with its placeholders replaced by values of the environment. A
/// variable that is not set counts as empty; a text without a placeholder
/// stays as it is.
pub open spec fn expanded(content: Seq<char>, env: Seq<(Seq<char>, Seq<char>)>) -> Seq<char> {
    if regex_valid(PLACEHOLDER_PATTERN@) {
        expand_captures(content, regex_captures(PLACEHOLDER_PATTERN@, content), env)
    } else {
        content
    }
}

/// Looks a variable up in an environment.
pub fn lookup(env: &Vec<(String, String)>, name: &str) -> (value: String)
    ensures
        value@ == env_value(env.deep_view(), name@),
{
    let mut i: usize = 0;
    assert(env.deep_view().skip(0) =~= env.deep_view());
    while i < env.len()
        invariant
            i <= env@.len(),
            env_value(env.deep_view(), name@) == env_value(env.deep_view().skip(i as int), name@),
        decreases env@.len() - i,
    {
        let ghost rest = env.deep_view().skip(i as int);
        assert(rest[0] == env.deep_view()[i as int]);
        assert(rest.drop_first() =~= env.deep_view().skip(i + 1));
        if *env[i].0.as_str() == *name {
            return env[i].1.clone();
        }
        i = i + 1;
    }
    String::new()
}

/// The strings of an array of strings, and `None` for every other value.
pub open spec fn decode_strings(v: JsonValue) -> Option<Seq<Seq<char>>> {
    match v {
        JsonValue::Array(items) => if forall|i: int|
            0 <= i < items.len() ==> (#[trigger] items[i]) is Str {
            Some(Seq::new(items.len(), |i: int| items[i]->Str_0))
        } else {
            None
        },
        _ => None,
    }
}

/// The list of strings under a key, empty where the member is missing.
/// `None` where the member is there and is no array of strings.
pub open spec fn strings_member(v: JsonValue, key: Seq<char>) -> Option<Seq<Seq<char>>> {
    match member(v, key) {
        None => Some(Seq::empty()),
        Some(list) => decode_strings(list),
    }
}

/// The boolean under a key, `false` where the member is missing. `None`
/// where the member is there and is no boolean.
pub open spec fn flag_member(v: JsonValue, key: Seq<char>) -> Option<bool> {
    match member(v, key) {
        None => Some(false),
        Some(JsonValue::Bool(b)) => Some(b),
        Some(_) => None,
    }
}

/// The keys of a list of pairs.
pub open spec fn pair_keys(pairs: Seq<(Seq<char>, Seq<char>)>) -> Seq<Seq<char>> {
    Seq::new(pairs.len(), |i: int| pairs[i].0)
}

/// Whether a JSON value is an object whose every member is a string.
pub open spec fn is_text_map(v: JsonValue) -> bool {
    v matches JsonValue::Object(m) && forall|k: Seq<char>|
        m.dom().contains(k) ==> (#[trigger] m[k]) is Str
}

/// Whether `pairs` lists the members of an object of strings, each once.
pub open spec fn lists_text_map(v: JsonValue, pairs: Seq<(Seq<char>, Seq<char>)>) -> bool {
    &&& v matches JsonValue::Object(m)
    &&& pair_keys(pairs).no_duplicates()
    &&& forall|k: Seq<char>| m.dom().contains(k) <==> pair_keys(pairs).contains(k)
    &&& forall|i: int|
        0 <= i < pairs.len() ==> m[(#[trigger] pairs[i]).0] == JsonValue::Str(pairs[i].1)
}

/// Whether the environment overrides of a provider can be read: the member
/// `env` is missing or is an object of strings.
pub open spec fn env_readable(v: JsonValue) -> bool {
    match member(v, "env"@) {
        None => true,
        Some(map) => is_text_map(map),
    }
}

/// Whether `pairs` are the environment overrides of a provider: none where
/// the member `env` is missing, else the members of the object.
pub open spec fn is_env_of(v: JsonValue, pairs: Seq<(Seq<char>, Seq<char>)>) -> bool {
    match member(v, "env"@) {
        None => pairs.len() == 0,
        Some(map) => lists_text_map(map, pairs),
    }
}

/// Whether a JSON value can be read as the configuration of a provider: an
/// object whose members `command`, `type` and `url` are strings, `null` or
/// missing, whose `args` is an array of strings or missing, whose `env` is
/// an object of strings or missing, and whose `disabled` is a boolean or
/// missing.
pub open spec fn server_config_readable(v: JsonValue) -> bool {
    &&& v is Object
    &&& optional_text_member(v, "command"@) is Some
    &&& strings_member(v, "args"@) is Some
    &&& env_readable(v)
    &&& flag_member(v, "disabled"@) is Some
    &&& optional_text_member(v, "type"@) is Some
    &&& optional_text_member(v, "url"@) is Some
}

/// Whether `c` is the configuration of a provider that a JSON value holds.
pub open spec fn is_server_config(v: JsonValue, c: McpServerConfigView) -> bool {
    &&& server_config_readable(v)
    &&& Some(c.command) == optional_text_member(v, "command"@)
    &&& Some(c.args) == strings_member(v, "args"@)
    &&& is_env_of(v, c.env)
    &&& Some(c.disabled) == flag_member(v, "disabled"@)
    &&& Some(c.transport_type) == optional_text_member(v, "type"@)
    &&& Some(c.url) == optional_text_member(v, "url"@)
}

/// Whether a JSON value can be read as a configuration: an object whose
/// member `mcpServers` is an object of provider configurations.
pub open spec fn config_readable(v: JsonValue) -> bool {
    member(v, "mcpServers"@) matches Some(JsonValue::Object(m)) && forall|k: Seq<char>|
        m.dom().contains(k) ==> server_config_readable(#[trigger] m[k])
}

/// Whether `c` is the configuration that a JSON value holds: it lists each
/// member of `mcpServers` once, under its key.
pub open spec fn is_config(v: JsonValue, c: McpConfig) -> bool {
    &&& member(v, "mcpServers"@) matches Some(JsonValue::Object(m))
    &&& c.wf()
    &&& forall|k: Seq<char>| m.dom().contains(k) <==> c.has(k)
    &&& forall|i: int|
        0 <= i < c.mcp_servers@.len() ==> is_server_config(
            m[c.names()[i]],
            (#[trigger] c.mcp_servers@[i]).1.deep_view(),
        )
}

/// Reads an array of strings.
pub fn strings_from_value(v: &Value) -> (r: Option<Vec<String>>)
    ensures
        r.deep_view() == decode_strings(value_content(*v)),
{
    let items = match json::as_array(v) {
        Some(items) => items,
        None => {
            return None;
        },
    };
    let ghost c = json::contents(items@);
    let mut out: Vec<String> = Vec::new();
    let mut i: usize = 0;
    while i < items.len()
        invariant
            i <= items@.len(),
            c == json::contents(items@),
            value_content(*v) == JsonValue::Array(c),
            out@.len() == i,
            forall|k: int| 0 <= k < i ==> (#[trigger] c[k]) == JsonValue::Str(out@[k]@),
        decreases items@.len() - i,
    {
        match json::as_str(&items[i]) {
            Some(s) => {
                out.push(s.to_owned());
            },
            None => {
                assert(!(c[i as int] is Str));
                return None;
            },
        }
        i = i + 1;
    }
    assert(out.deep_view() =~= decode_strings(value_content(*v))->0);
    Some(out)
}

/// Reads the members of an object of strings.
pub fn text_map_from_value(v: &Value) -> (r: Option<Vec<(String, String)>>)
    ensures
        r is Some <==> is_text_map(value_content(*v)),
        r matches Some(pairs) ==> lists_text_map(value_content(*v), pairs.deep_view()),
{
    let keys = match json::object_keys(v) {
        Some(keys) => keys,
        None => {
            return None;
        },
    };
    let ghost m = value_content(*v)->Object_0;
    let mut out: Vec<(String, String)> = Vec::new();
    let mut i: usize = 0;
    while i < keys.len()
        invariant
            i <= keys@.len(),
            value_content(*v) == JsonValue::Object(m),
            text::texts(keys@).no_duplicates(),
            forall|k: Seq<char>| m.dom().contains(k) <==> text::texts(keys@).contains(k),
            out@.len() == i,
            forall|j: int|
                0 <= j < i ==> (#[trigger] out.deep_view()[j]).0 == text::texts(keys@)[j]
                    && m[text::texts(keys@)[j]] == JsonValue::Str(out.deep_view()[j].1),
        decreases keys@.len() - i,
    {
        let ghost key = text::texts(keys@)[i as int];
        assert(text::texts(keys@).contains(key));
        let value = match json::get(v, keys[i].as_str()) {
            Some(value) => value,
            None => {
                return None;
            },
        };
        match json::as_str(value) {
            Some(s) => {
                let ghost before = out.deep_view();
                let pair = (keys[i].clone(), s.to_owned());
                out.push(pair);
                assert(out.deep_view() =~= before.push(pair.deep_view()));
            },
            None => {
                assert(!(m[key] is Str));
                return None;
            },
        }
        i = i + 1;
    }
    proof {
        let pairs = out.deep_view();
        assert(pair_keys(pairs) =~= text::texts(keys@));
        assert forall|k: Seq<char>| m.dom().contains(k) implies (#[trigger] m[k]) is Str by {
            let j = choose|j: int| 0 <= j < keys@.len() && text::texts(keys@)[j] == k;
            assert(pairs[j].0 == k);
        }
    }
    Some(out)
}

/// Replaces the placeholders found in a text, in one pass from left to
/// right.
pub fn expand_found(
    content: &str,
    found: &Vec<(String, Option<String>)>,
    env: &Vec<(String, String)>,
) -> (r: String)
    ensures
        r@ == expand_captures(content@, found.deep_view(), env.deep_view()),
{
    let chars = text::to_chars(content);
    let n: usize = chars.len();
    let mut out: Vec<char> = Vec::new();
    let mut cursor: usize = 0;
    let mut i: usize = 0;
    let ghost all = found.deep_view();
    proof {
        assert(chars@.skip(0) =~= chars@);
        assert(all.skip(0) =~= all);
        assert(out@ + expand_captures(chars@, all, env.deep_view()) =~= expand_captures(
            chars@,
            all,
            env.deep_view(),
        ));
    }
    while i < found.len()
        invariant
            i <= found@.len(),
            cursor <= n,
            n == chars@.len(),
            chars@ == content@,
            all == found.deep_view(),
            expand_captures(content@, all, env.deep_view()) == out@ + expand_captures(
                chars@.skip(cursor as int),
                all.skip(i as int),
                env.deep_view(),
            ),
        decreases found@.len() - i,
    {
        let ghost rest = chars@.skip(cursor as int);
        let ghost left = all.skip(i as int);
        let ghost done = out@;
        proof {
            assert(left[0] == found@[i as int].deep_view());
            assert(left.drop_first() =~= all.skip(i + 1));
        }
        let pattern = text::to_chars(found[i].0.as_str());
        if pattern.len() > 0 {
            let at = text::find(&chars, cursor, &pattern);
            if at < n {
                proof {
                    text::lemma_find_run(rest, pattern@);
                    assert(rest.take(at - cursor) =~= chars@.subrange(cursor as int, at as int));
                    assert(rest.skip(at - cursor + pattern@.len()) =~= chars@.skip(
                        at + pattern@.len(),
                    ));
                }
                text::extend(&mut out, &chars, cursor, at);
                let ghost value = replacement(left[0], env.deep_view());
                match &found[i].1 {
                    Some(name) => {
                        let value_text = lookup(env, name.as_str());
                        let value_chars = text::to_chars(value_text.as_str());
                        assert(value_chars@.subrange(0, value_chars@.len() as int)
                            =~= value_chars@);
                        text::extend(&mut out, &value_chars, 0, value_chars.len());
                    },
                    None => {
                        assert(pattern@.subrange(0, pattern@.len() as int) =~= pattern@);
                        text::extend(&mut out, &pattern, 0, pattern.len());
                    },
                }
                proof {
                    let tail = expand_captures(
                        chars@.skip(at + pattern@.len()),
                        all.skip(i + 1),
                        env.deep_view(),
                    );
                    assert(done + (rest.take(at - cursor) + value + tail) =~= done + rest.take(
                        at - cursor,
                    ) + value + tail);
                }
                cursor = at + pattern.len();
            }
        }
        i = i + 1;
    }
    proof {
        assert(all.skip(i as int).len() == 0);
        assert(chars@.skip(cursor as int) =~= chars@.subrange(cursor as int, n as int));
    }
    text::extend(&mut out, &chars, cursor, n);
    assert(out@.subrange(0, out@.len() as int) =~= out@);
    text::substring(&out, 0, out.len())
}

impl McpServerConfig {
    /// Reads the configuration of a provider from a JSON value.
    pub fn from_value(v: &Value) -> (r: Option<Self>)
        ensures
            r is Some <==> server_config_readable(value_content(*v)),
            r matches Some(c) ==> is_server_config(value_content(*v), c.deep_view()),
    {
        if json::object_keys(v).is_none() {
            return None;
        }
        let command = match json::get_optional_text(v, "command") {
            Some(command) => command,
            None => {
                return None;
            },
        };
        let args = match json::get(v, "args") {
            Some(list) => match strings_from_value(list) {
                Some(args) => args,
                None => {
                    return None;
                },
            },
            None => {
                let none: Vec<String> = Vec::new();
                assert(none.deep_view() =~= Seq::<Seq<char>>::empty());
                none
            },
        };
        let env = match json::get(v, "env") {
            Some(map) => match text_map_from_value(map) {
                Some(env) => env,
                None => {
                    return None;
                },
            },
            None => Vec::new(),
        };
        let disabled = match json::get(v, "disabled") {
            Some(flag) => match json::as_bool(flag) {
                Some(b) => b,
                None => {
                    return None;
                },
            },
            None => false,
        };
        let transport_type = match json::get_optional_text(v, "type") {
            Some(kind) => kind,
            None => {
                return None;
            },
        };
        let url = match json::get_optional_text(v, "url") {
            Some(url) => url,
            None => {
                return None;
            },
        };
        Some(McpServerConfig { command, args, env, disabled, transport_type, url })
    }
}

impl McpConfig {
    /// Reads a configuration from a JSON value.
    pub fn from_value(v: &Value) -> (r: Option<Self>)
        ensures
            r is Some <==> config_readable(value_content(*v)),
            r matches Some(c) ==> is_config(value_content(*v), c),
    {
        let servers = match json::get(v, "mcpServers") {
            Some(servers) => servers,
            None => {
                return None;
            },
        };
        let keys = match json::object_keys(servers) {
            Some(keys) => keys,
            None => {
                return None;
            },
        };
        let ghost m = value_content(*servers)->Object_0;
        let mut entries: Vec<(String, McpServerConfig)> = Vec::new();
        let mut i: usize = 0;
        while i < keys.len()
            invariant
                i <= keys@.len(),
                member(value_content(*v), "mcpServers"@) == Some(JsonValue::Object(m)),
                value_content(*servers) == JsonValue::Object(m),
                text::texts(keys@).no_duplicates(),
                forall|k: Seq<char>| m.dom().contains(k) <==> text::texts(keys@).contains(k),
                entries@.len() == i,
                forall|j: int|
                    0 <= j < i ==> (#[trigger] entries@[j]).0@ == text::texts(keys@)[j]
                        && is_server_config(m[text::texts(keys@)[j]], entries@[j].1.deep_view()),
            decreases keys@.len() - i,
        {
            let ghost key = text::texts(keys@)[i as int];
            assert(text::texts(keys@).contains(key));
            let value = match json::get(servers, keys[i].as_str()) {
                Some(value) => value,
                None => {
                    return None;
                },
            };
            match McpServerConfig::from_value(value) {
                Some(config) => {
                    entries.push((keys[i].clone(), config));
                },
                None => {
                    assert(!server_config_readable(m[key]));
                    return None;
                },
            }
            i = i + 1;
        }
        let config = McpConfig { mcp_servers: entries };
        proof {
            assert(config.names() =~= text::texts(keys@));
            assert forall|k: Seq<char>| m.dom().contains(k) implies server_config_readable(
                #[trigger] m[k],
            ) by {
                let j = choose|j: int| 0 <= j < keys@.len() && text::texts(keys@)[j] == k;
                assert(entries@[j].0@ == k);
            }
        }
        Some(config)
    }
}

impl McpManager {
    /// Replaces the placeholders `${NAME}` of a text by the values that an
    /// environment gives to the names.
    pub fn expand_env_vars(content: &str, env: &Vec<(String, String)>) -> (r: String)
        ensures
            r@ == expanded(content@, env.deep_view()),
            regex_captures(PLACEHOLDER_PATTERN@, content@).len() == 0 ==> r@ == content@,
    {
        match compile(PLACEHOLDER_PATTERN) {
            Some(re) => expand_found(content, &captures(&re, content), env),
            None => content.to_owned(),
        }
    }

    /// Reads the configuration from the text of a configuration file:
    /// placeholders are replaced by values of the environment, then the JSON
    /// is decoded. A text that is no JSON after that, and JSON that is no
    /// configuration, are refused.
    pub fn load_config(content: &str, env: &Vec<(String, String)>) -> (r: Result<McpConfig, McpError>)
        ensures
            r is Ok <==> (json_parse(expanded(content@, env.deep_view())) matches Some(v)
                && config_readable(v)),
            r matches Ok(c) ==> is_config(
                json_parse(expanded(content@, env.deep_view()))->0,
                c,
            ),
            r matches Err(e) ==> e is InvalidConfig,
    {
        let text = McpManager::expand_env_vars(content, env);
        match json::parse(text.as_str()) {
            Ok(v) => match McpConfig::from_value(&v) {
                Some(config) => Ok(config),
                None => Err(
                    McpError::InvalidConfig {
                        detail: "mcpServers is missing, or a provider is malformed".to_owned(),
                    },
                ),
            },
            Err(e) => Err(McpError::InvalidConfig { detail: json::error_text(&e) }),
        }
    }
}

} // verus!
