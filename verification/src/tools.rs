//! The built-in tools of the agent and the scanning of arithmetic
//! expressions.

use crate::json;
use crate::json::{json_parse, text_member, value_content, JsonValue};
use crate::text;
use serde_json::Value;
use vstd::prelude::*;
use vstd::string::StringExecFns;

verus! {

/// A tool of the agent.
#[derive(Debug, Clone)]
pub struct ToolDefinition {
    pub tool_type: String,
    pub function: FunctionDef,
}

/// The function behind a tool of the agent.
#[derive(Debug, Clone)]
pub struct FunctionDef {
    pub name: String,
    pub description: String,
    pub parameters: Value,
}

/// The outcome of a tool.
#[derive(Debug, Clone)]
pub struct ToolResult {
    pub tool_call_id: String,
    pub name: String,
    pub result: String,
    pub success: bool,
}

/// What a character adds to the nesting depth when an expression is read
/// from the right: an opening parenthesis one more, a closing one one less.
pub open spec fn paren_step(c: char) -> int {
    if c == '(' {
        1
    } else if c == ')' {
        -1
    } else {
        0
    }
}

/// The opening minus the closing parentheses of `s[k..]`.
pub open spec fn depth_from(s: Seq<char>, k: int) -> int
    decreases s.len() - k,
{
    if k >= s.len() || k < 0 {
        0
    } else {
        paren_step(s[k]) + depth_from(s, k + 1)
    }
}

/// Whether one of the operators stands at position `i`, not at the start of
/// the expression, with as many opening as closing parentheses after it.
pub open spec fn is_operator_at(s: Seq<char>, ops: Seq<char>, i: int) -> bool {
    &&& 0 < i < s.len()
    &&& s[i] != '('
    &&& s[i] != ')'
    &&& ops.contains(s[i])
    &&& depth_from(s, i + 1) == 0
}

/// Whether a character is one of a list.
pub fn is_one_of(ops: &[char], c: char) -> (b: bool)
    ensures
        b == ops@.contains(c),
{
    let mut k: usize = 0;
    while k < ops.len()
        invariant
            k <= ops@.len(),
            forall|j: int| 0 <= j < k ==> ops@[j] != c,
        decreases ops@.len() - k,
    {
        if ops[k] == c {
            return true;
        }
        k = k + 1;
    }
    false
}

/// The position, counted in characters, of the last operator of an
/// expression that stands outside parentheses and not at the start.
pub fn find_operator(expr: &str, ops: &[char]) -> (r: Option<usize>)
    ensures
        match r {
            Some(i) => is_operator_at(expr@, ops@, i as int) && forall|j: int|
                i < j < expr@.len() ==> !is_operator_at(expr@, ops@, j),
            None => forall|j: int| 0 <= j < expr@.len() ==> !is_operator_at(expr@, ops@, j),
        },
{
    let chars = text::to_chars(expr);
    let n: usize = chars.len();
    let mut depth: i128 = 0;
    let mut i: usize = n;
    while i > 0
        invariant
            i <= n,
            n == chars@.len(),
            chars@ == expr@,
            depth == depth_from(chars@, i as int),
            -(n - i) <= depth <= n - i,
            forall|j: int| i <= j < n ==> !is_operator_at(chars@, ops@, j),
        decreases i,
    {
        i = i - 1;
        let c = chars[i];
        if c == '(' {
            depth = depth + 1;
        } else if c == ')' {
            depth = depth - 1;
        } else if depth == 0 && is_one_of(ops, c) && i > 0 {
            return Some(i);
        }
    }
    None
}

/// The tools of the agent, each under its name. No name occurs twice.
#[derive(Debug)]
pub struct ToolRegistry {
    tools: Vec<ToolDefinition>,
}

/// What a tool needs before its outcome is known.
#[derive(Debug)]
pub enum ToolPlan {
    /// The value of this arithmetic expression is to be computed: its
    /// outcome goes to `calculator_result`.
    Calculate { expression: String },
    /// The time is to be read: it goes to `time_result`.
    ReadClock,
    /// Nothing: this is the outcome.
    Done(ToolResult),
}

/// The content of the outcome of a tool.
pub struct ToolResultView {
    pub tool_call_id: Seq<char>,
    pub name: Seq<char>,
    pub result: Seq<char>,
    pub success: bool,
}

impl DeepView for ToolResult {
    type V = ToolResultView;

    open spec fn deep_view(&self) -> ToolResultView {
        ToolResultView {
            tool_call_id: self.tool_call_id@,
            name: self.name@,
            result: self.result@,
            success: self.success,
        }
    }
}

/// The JSON schema of the calculator's parameters.
pub const CALCULATOR_SCHEMA: &'static str =
    "{\"type\":\"object\",\"properties\":{\"expression\":{\"type\":\"string\",\"description\":\"Mathematical expression to evaluate, e.g., '2 + 2 * 3'\"}},\"required\":[\"expression\"]}";

/// The JSON schema of the clock's parameters.
pub const TIME_SCHEMA: &'static str =
    "{\"type\":\"object\",\"properties\":{\"timezone\":{\"type\":\"string\",\"description\":\"Timezone (optional), e.g., 'UTC', 'Europe/Moscow'\"}},\"required\":[]}";

/// The JSON schema of the web search's parameters.
pub const SEARCH_SCHEMA: &'static str =
    "{\"type\":\"object\",\"properties\":{\"query\":{\"type\":\"string\",\"description\":\"Search query\"}},\"required\":[\"query\"]}";

/// The JSON schema of the note taker's parameters.
pub const NOTE_SCHEMA: &'static str =
    "{\"type\":\"object\",\"properties\":{\"title\":{\"type\":\"string\",\"description\":\"Title of the note\"},\"content\":{\"type\":\"string\",\"description\":\"Content of the note\"}},\"required\":[\"title\",\"content\"]}";

/// The JSON schema of the code runner's parameters.
pub const CODE_SCHEMA: &'static str =
    "{\"type\":\"object\",\"properties\":{\"language\":{\"type\":\"string\",\"description\":\"Programming language (python, javascript)\",\"enum\":[\"python\",\"javascript\"]},\"code\":{\"type\":\"string\",\"description\":\"Code to execute\"}},\"required\":[\"language\",\"code\"]}";

/// The JSON that a text holds, and the empty object where it holds none.
pub open spec fn json_or_empty(text: Seq<char>) -> JsonValue {
    match json_parse(text) {
        Some(v) => v,
        None => JsonValue::Object(Map::empty()),
    }
}

/// The string argument under a key, or a default where there is none.
pub open spec fn text_arg(args: JsonValue, key: Seq<char>, default: Seq<char>) -> Seq<char> {
    match text_member(args, key) {
        Some(s) => s,
        None => default,
    }
}

/// Whether a tool is the built-in tool of this name, description and schema.
pub open spec fn is_builtin(
    tool: ToolDefinition,
    name: Seq<char>,
    description: Seq<char>,
    schema: Seq<char>,
) -> bool {
    &&& tool.tool_type@ == "function"@
    &&& tool.function.name@ == name
    &&& tool.function.description@ == description
    &&& value_content(tool.function.parameters) == json_or_empty(schema)
}

/// The names of a list of tools.
pub open spec fn names_of(tools: Seq<ToolDefinition>) -> Seq<Seq<char>> {
    Seq::new(tools.len(), |i: int| tools[i].function.name@)
}

/// The text that the simulated web search answers.
pub open spec fn search_text(query: Seq<char>) -> Seq<char> {
    "Search results for '"@ + query + "':\n1. [Wikipedia] "@ + query
        + " - General information and overview\n2. [Documentation] Official docs about "@ + query
        + "\n3. [Tutorial] How to work with "@ + query
        + "\n(Note: This is a simulated search. Connect a real search API for actual results.)"@
}

/// The text that the note taker answers.
pub open spec fn note_text(title: Seq<char>, content: Seq<char>) -> Seq<char> {
    "Note saved: '"@ + title + "' - "@ + content
}

/// The text that the simulated code runner answers.
pub open spec fn code_text(language: Seq<char>, code: Seq<char>) -> Seq<char> {
    "["@ + language + "] Code execution simulated. Code:\n"@ + code
        + "\n\n(Note: Connect a real code sandbox for actual execution.)"@
}

/// The outcome of a tool: its name, its text and whether it succeeded. The
/// id of the tool call is left empty for the caller to set.
pub open spec fn outcome(name: Seq<char>, result: Seq<char>, success: bool) -> ToolResultView {
    ToolResultView { tool_call_id: Seq::empty(), name, result, success }
}

/// The JSON that a text holds, and the empty object where it holds none.
pub fn parse_or_empty(text: &str) -> (v: Value)
    ensures
        value_content(v) == json_or_empty(text@),
{
    match json::parse(text) {
        Ok(v) => v,
        Err(_) => json::empty_object(),
    }
}

/// Reads the string argument under a key, or a default.
pub fn get_text_arg(args: &Value, key: &str, default: &str) -> (s: String)
    ensures
        s@ == text_arg(value_content(*args), key@, default@),
{
    match json::get_text(args, key) {
        Some(s) => s,
        None => default.to_owned(),
    }
}

/// A built-in tool.
fn builtin(name: &str, description: &str, schema: &str) -> (tool: ToolDefinition)
    ensures
        is_builtin(tool, name@, description@, schema@),
{
    ToolDefinition {
        tool_type: "function".to_owned(),
        function: FunctionDef {
            name: name.to_owned(),
            description: description.to_owned(),
            parameters: parse_or_empty(schema),
        },
    }
}

/// The outcome of a tool.
fn make_outcome(name: &str, result: String, success: bool) -> (r: ToolResult)
    ensures
        r.deep_view() == outcome(name@, result@, success),
{
    ToolResult { tool_call_id: String::new(), name: name.to_owned(), result, success }
}

impl ToolRegistry {
    /// The tools, in the order in which their names were first registered.
    pub closed spec fn tools(&self) -> Seq<ToolDefinition> {
        self.tools@
    }

    /// No name occurs twice.
    pub open spec fn wf(&self) -> bool {
        names_of(self.tools()).no_duplicates()
    }

    /// The registry with the built-in tools: the calculator, the clock, the
    /// web search, the note taker and the code runner.
    pub fn new() -> (r: Self)
        ensures
            r.wf(),
            r.tools().len() == 5,
            is_builtin(
                r.tools()[0],
                "calculator"@,
                "Perform mathematical calculations. Supports basic arithmetic operations."@,
                CALCULATOR_SCHEMA@,
            ),
            is_builtin(
                r.tools()[1],
                "get_current_time"@,
                "Get the current date and time."@,
                TIME_SCHEMA@,
            ),
            is_builtin(
                r.tools()[2],
                "web_search"@,
                "Search the web for information. Returns search results."@,
                SEARCH_SCHEMA@,
            ),
            is_builtin(
                r.tools()[3],
                "save_note"@,
                "Save a note or piece of information for later reference."@,
                NOTE_SCHEMA@,
            ),
            is_builtin(
                r.tools()[4],
                "run_code"@,
                "Execute code and return the result. Supports Python-like expressions."@,
                CODE_SCHEMA@,
            ),
    {
        let mut registry = ToolRegistry { tools: Vec::new() };
        assert(names_of(registry.tools()) =~= Seq::<Seq<char>>::empty());
        registry.register_default_tools();
        registry
    }

    /// Registers the built-in tools in a registry that holds none.
    fn register_default_tools(&mut self)
        requires
            old(self).tools().len() == 0,
        ensures
            final(self).wf(),
            final(self).tools().len() == 5,
            is_builtin(
                final(self).tools()[0],
                "calculator"@,
                "Perform mathematical calculations. Supports basic arithmetic operations."@,
                CALCULATOR_SCHEMA@,
            ),
            is_builtin(
                final(self).tools()[1],
                "get_current_time"@,
                "Get the current date and time."@,
                TIME_SCHEMA@,
            ),
            is_builtin(
                final(self).tools()[2],
                "web_search"@,
                "Search the web for information. Returns search results."@,
                SEARCH_SCHEMA@,
            ),
            is_builtin(
                final(self).tools()[3],
                "save_note"@,
                "Save a note or piece of information for later reference."@,
                NOTE_SCHEMA@,
            ),
            is_builtin(
                final(self).tools()[4],
                "run_code"@,
                "Execute code and return the result. Supports Python-like expressions."@,
                CODE_SCHEMA@,
            ),
    {
        proof {
            reveal_strlit("calculator");
            reveal_strlit("get_current_time");
            reveal_strlit("web_search");
            reveal_strlit("save_note");
            reveal_strlit("run_code");
            assert("calculator"@.len() == 10 && "get_current_time"@.len() == 16
                && "web_search"@[0] == 'w' && "web_search"@.len() == 10 && "save_note"@.len() == 9
                && "run_code"@.len() == 8 && "calculator"@[0] == 'c');
            assert(names_of(self.tools()) =~= Seq::<Seq<char>>::empty());
        }
        self.register(
            builtin(
                "calculator",
                "Perform mathematical calculations. Supports basic arithmetic operations.",
                CALCULATOR_SCHEMA,
            ),
        );
        self.register(builtin("get_current_time", "Get the current date and time.", TIME_SCHEMA));
        self.register(
            builtin(
                "web_search",
                "Search the web for information. Returns search results.",
                SEARCH_SCHEMA,
            ),
        );
        self.register(
            builtin(
                "save_note",
                "Save a note or piece of information for later reference.",
                NOTE_SCHEMA,
            ),
        );
        self.register(
            builtin(
                "run_code",
                "Execute code and return the result. Supports Python-like expressions.",
                CODE_SCHEMA,
            ),
        );
    }

    /// The position of the tool of a name, or `None`.
    fn find(&self, name: &str) -> (r: Option<usize>)
        ensures
            match r {
                Some(i) => i < self.tools().len() && names_of(self.tools())[i as int] == name@,
                None => !names_of(self.tools()).contains(name@),
            },
    {
        let mut i: usize = 0;
        while i < self.tools.len()
            invariant
                i <= self.tools@.len(),
                forall|k: int| 0 <= k < i ==> names_of(self.tools())[k] != name@,
            decreases self.tools@.len() - i,
        {
            if *self.tools[i].function.name.as_str() == *name {
                return Some(i);
            }
            i = i + 1;
        }
        None
    }

    /// Registers a tool under its name. It takes the place of a tool that
    /// was registered under the same name, and is added at the end
    /// otherwise.
    pub fn register(&mut self, tool: ToolDefinition)
        requires
            old(self).wf(),
        ensures
            final(self).wf(),
            names_of(old(self).tools()).contains(tool.function.name@) ==> final(self).tools()
                == old(self).tools().update(
                names_of(old(self).tools()).index_of(tool.function.name@),
                tool,
            ),
            !names_of(old(self).tools()).contains(tool.function.name@) ==> final(self).tools()
                == old(self).tools().push(tool),
    {
        let ghost before = self.tools();
        match self.find(tool.function.name.as_str()) {
            Some(at) => {
                proof {
                    let j = names_of(before).index_of(tool.function.name@);
                    assert(names_of(before)[j] == tool.function.name@);
                    assert(j == at);
                }
                self.tools.set(at, tool);
                assert(names_of(self.tools()) =~= names_of(before));
            },
            None => {
                self.tools.push(tool);
                proof {
                    let after = names_of(self.tools());
                    assert(after =~= names_of(before).push(tool.function.name@));
                    assert forall|a: int, b: int|
                        0 <= a < after.len() && 0 <= b < after.len() && a != b implies after[a]
                        != after[b] by {
                        if a < before.len() {
                            assert(after[a] == names_of(before)[a]);
                        }
                        if b < before.len() {
                            assert(after[b] == names_of(before)[b]);
                        }
                    }
                }
            },
        }
    }

    /// All tools, in the order in which their names were first registered.
    pub fn get_all(&self) -> (all: Vec<ToolDefinition>)
        ensures
            all@.len() == self.tools().len(),
            forall|i: int|
                0 <= i < all@.len() ==> {
                    &&& (#[trigger] all@[i]).tool_type == self.tools()[i].tool_type
                    &&& all@[i].function.name == self.tools()[i].function.name
                    &&& all@[i].function.description == self.tools()[i].function.description
                    &&& all@[i].function.parameters == self.tools()[i].function.parameters
                },
    {
        let mut all: Vec<ToolDefinition> = Vec::new();
        let mut i: usize = 0;
        while i < self.tools.len()
            invariant
                i <= self.tools@.len(),
                all@.len() == i,
                forall|k: int|
                    0 <= k < i ==> {
                        &&& (#[trigger] all@[k]).tool_type == self.tools()[k].tool_type
                        &&& all@[k].function.name == self.tools()[k].function.name
                        &&& all@[k].function.description == self.tools()[k].function.description
                        &&& all@[k].function.parameters == self.tools()[k].function.parameters
                    },
            decreases self.tools@.len() - i,
        {
            let tool = &self.tools[i];
            all.push(
                ToolDefinition {
                    tool_type: tool.tool_type.clone(),
                    function: FunctionDef {
                        name: tool.function.name.clone(),
                        description: tool.function.description.clone(),
                        parameters: tool.function.parameters.clone(),
                    },
                },
            );
            i = i + 1;
        }
        all
    }

    /// The tool of a name, or `None`.
    pub fn get(&self, name: &str) -> (r: Option<&ToolDefinition>)
        requires
            self.wf(),
        ensures
            match r {
                Some(tool) => names_of(self.tools()).contains(name@) && *tool
                    == self.tools()[names_of(self.tools()).index_of(name@)] && tool.function.name@
                    == name@,
                None => !names_of(self.tools()).contains(name@),
            },
    {
        match self.find(name) {
            Some(at) => {
                proof {
                    let j = names_of(self.tools()).index_of(name@);
                    assert(names_of(self.tools())[at as int] == name@);
                    assert(names_of(self.tools())[j] == name@);
                    assert(j == at);
                }
                Some(&self.tools[at])
            },
            None => None,
        }
    }

    /// Begins the execution of a tool, with its arguments given as JSON
    /// text; arguments that are no JSON count as none. The calculator and
    /// the clock need something from outside; the other built-in tools
    /// answer at once, and a tool that is not built in fails.
    pub fn execute(&self, name: &str, arguments: &str) -> (plan: ToolPlan)
        ensures
            name@ == "calculator"@ ==> (plan matches ToolPlan::Calculate { expression }
                && expression@ == text_arg(json_or_empty(arguments@), "expression"@, ""@)),
            name@ == "get_current_time"@ ==> plan is ReadClock,
            name@ == "web_search"@ ==> (plan matches ToolPlan::Done(r) && r.deep_view() == outcome(
                name@,
                search_text(text_arg(json_or_empty(arguments@), "query"@, ""@)),
                true,
            )),
            name@ == "save_note"@ ==> (plan matches ToolPlan::Done(r) && r.deep_view() == outcome(
                name@,
                note_text(
                    text_arg(json_or_empty(arguments@), "title"@, "Untitled"@),
                    text_arg(json_or_empty(arguments@), "content"@, ""@),
                ),
                true,
            )),
            name@ == "run_code"@ ==> (plan matches ToolPlan::Done(r) && r.deep_view() == outcome(
                name@,
                code_text(
                    text_arg(json_or_empty(arguments@), "language"@, "python"@),
                    text_arg(json_or_empty(arguments@), "code"@, ""@),
                ),
                true,
            )),
            (name@ != "calculator"@ && name@ != "get_current_time"@ && name@ != "web_search"@
                && name@ != "save_note"@ && name@ != "run_code"@) ==> (plan matches ToolPlan::Done(
                r,
            ) && r.deep_view() == outcome(name@, "Unknown tool: "@ + name@, false)),
    {
        proof {
            reveal_strlit("calculator");
            reveal_strlit("get_current_time");
            reveal_strlit("web_search");
            reveal_strlit("save_note");
            reveal_strlit("run_code");
            assert("calculator"@.len() == 10 && "get_current_time"@.len() == 16
                && "web_search"@[0] == 'w' && "web_search"@.len() == 10 && "save_note"@.len() == 9
                && "run_code"@.len() == 8 && "calculator"@[0] == 'c');
        }
        let args = parse_or_empty(arguments);
        if *name == *"calculator" {
            ToolPlan::Calculate { expression: get_text_arg(&args, "expression", "") }
        } else if *name == *"get_current_time" {
            ToolPlan::ReadClock
        } else if *name == *"web_search" {
            ToolPlan::Done(make_outcome(name, ToolRegistry::execute_web_search(&args), true))
        } else if *name == *"save_note" {
            ToolPlan::Done(make_outcome(name, ToolRegistry::execute_save_note(&args), true))
        } else if *name == *"run_code" {
            ToolPlan::Done(make_outcome(name, ToolRegistry::execute_run_code(&args), true))
        } else {
            ToolPlan::Done(make_outcome(name, "Unknown tool: ".to_owned().concat(name), false))
        }
    }

    /// The outcome of the calculator, from the value of the expression as
    /// text or from the reason why it has none.
    pub fn execute_calculator(computed: Result<String, String>) -> (r: ToolResult)
        ensures
            r.deep_view() == match computed {
                Ok(value) => outcome("calculator"@, value@, true),
                Err(reason) => outcome("calculator"@, "Error: "@ + reason@, false),
            },
    {
        match computed {
            Ok(value) => make_outcome("calculator", value, true),
            Err(reason) => make_outcome(
                "calculator",
                "Error: ".to_owned().concat(reason.as_str()),
                false,
            ),
        }
    }

    /// The outcome of the clock, from the time as text.
    pub fn execute_get_time(now: String) -> (r: ToolResult)
        ensures
            r.deep_view() == outcome("get_current_time"@, now@, true),
    {
        make_outcome("get_current_time", now, true)
    }

    /// The text of the simulated web search.
    pub fn execute_web_search(args: &Value) -> (s: String)
        ensures
            s@ == search_text(text_arg(value_content(*args), "query"@, ""@)),
    {
        let query = get_text_arg(args, "query", "");
        let mut s = "Search results for '".to_owned();
        s.append(query.as_str());
        s.append("':\n1. [Wikipedia] ");
        s.append(query.as_str());
        s.append(" - General information and overview\n2. [Documentation] Official docs about ");
        s.append(query.as_str());
        s.append("\n3. [Tutorial] How to work with ");
        s.append(query.as_str());
        s.append(
            "\n(Note: This is a simulated search. Connect a real search API for actual results.)",
        );
        s
    }

    /// The text of the note taker.
    pub fn execute_save_note(args: &Value) -> (s: String)
        ensures
            s@ == note_text(
                text_arg(value_content(*args), "title"@, "Untitled"@),
                text_arg(value_content(*args), "content"@, ""@),
            ),
    {
        let title = get_text_arg(args, "title", "Untitled");
        let content = get_text_arg(args, "content", "");
        let mut s = "Note saved: '".to_owned();
        s.append(title.as_str());
        s.append("' - ");
        s.append(content.as_str());
        s
    }

    /// The text of the simulated code runner.
    pub fn execute_run_code(args: &Value) -> (s: String)
        ensures
            s@ == code_text(
                text_arg(value_content(*args), "language"@, "python"@),
                text_arg(value_content(*args), "code"@, ""@),
            ),
    {
        let language = get_text_arg(args, "language", "python");
        let code = get_text_arg(args, "code", "");
        let mut s = "[".to_owned();
        s.append(language.as_str());
        s.append("] Code execution simulated. Code:\n");
        s.append(code.as_str());
        s.append("\n\n(Note: Connect a real code sandbox for actual execution.)");
        s
    }
}

impl Default for ToolRegistry {
    fn default() -> (r: Self)
        ensures
            r.wf(),
            r.tools().len() == 5,
            names_of(r.tools()) == seq![
                "calculator"@,
                "get_current_time"@,
                "web_search"@,
                "save_note"@,
                "run_code"@,
            ],
    {
        let r = ToolRegistry::new();
        assert(names_of(r.tools()) =~= seq![
            "calculator"@,
            "get_current_time"@,
            "web_search"@,
            "save_note"@,
            "run_code"@,
        ]);
        r
    }
}

} // verus!
