//! The two channels to a provider: a subprocess pipe and an HTTP endpoint.
//!
//! A `McpTransport` says how a provider is reached. It turns a request into
//! what goes on the wire and judges what came back; the caller starts the
//! process, writes, reads and posts.

use crate::mcp::error::McpError;
use crate::mcp::protocol::{
    parse_response, parse_sse_response, request_text, sse_payload, JsonRpcRequest, JsonRpcResponse,
};
use crate::text;
use crate::text::{contains_run, trim, words};
use vstd::prelude::*;
use vstd::utf8::{char_is_scalar, encode_scalar, encode_utf8};

verus! {

/// How a provider is reached.
#[derive(Debug)]
pub enum McpTransport {
    /// A child process, spoken to over its standard input and output.
    Stdio { program: String, args: Vec<String>, env: Vec<(String, String)> },
    /// An HTTP endpoint that takes a POST.
    Http { url: String },
}

/// What a transport puts on the wire for one request.
#[derive(Debug)]
pub enum WireRequest {
    /// Write the text to the child's standard input and flush.
    Line { text: String },
    /// Post the body to the URL with these headers.
    Post { url: String, accept: String, content_type: String, body: String },
}

/// What a line read from a child's standard output amounts to.
#[derive(Debug)]
pub enum LineOutcome {
    /// A blank line: read on.
    Blank,
    /// A line that is no response envelope: read on.
    Noise,
    /// The response.
    Response(JsonRpcResponse),
}

/// The most bytes of an offending text that an error carries as a preview.
pub const PREVIEW_BYTES: usize = 200;

/// Whether a command names a program: it holds a word. An empty command,
/// and one of white space only, names none.
pub open spec fn names_program(command: Seq<char>) -> bool {
    words(command).len() > 0
}

/// What is said of a command that names no program.
pub open spec fn no_program_text() -> Seq<char> {
    "the command names no program"@
}

/// The program that a command names: its first word where it embeds a space,
/// and the whole command otherwise.
pub open spec fn stdio_program(command: Seq<char>) -> Seq<char> {
    if command.contains(' ') {
        words(command)[0]
    } else {
        command
    }
}

/// The arguments of the child: the further words of the command, then the
/// configured arguments.
pub open spec fn stdio_args(command: Seq<char>, args: Seq<Seq<char>>) -> Seq<Seq<char>> {
    if command.contains(' ') {
        words(command).skip(1) + args
    } else {
        args
    }
}

/// The environment overrides that reach the child: those whose value is not
/// empty, in their order.
pub open spec fn forwarded_env(env: Seq<(Seq<char>, Seq<char>)>) -> Seq<(Seq<char>, Seq<char>)>
    decreases env.len(),
{
    if env.len() == 0 {
        Seq::empty()
    } else if env.last().1.len() > 0 {
        forwarded_env(env.drop_last()).push(env.last())
    } else {
        forwarded_env(env.drop_last())
    }
}

/// The number of bytes that a character takes in UTF-8.
pub open spec fn utf8_width(c: char) -> int {
    encode_scalar(c as u32).len() as int
}

/// The number of leading characters of a text whose UTF-8 encoding fits a
/// number of bytes.
pub open spec fn fitting(text: Seq<char>, bytes: int) -> int
    decreases text.len(),
{
    if text.len() > 0 && utf8_width(text[0]) <= bytes {
        1 + fitting(text.drop_first(), bytes - utf8_width(text[0]))
    } else {
        0
    }
}

/// The preview of a text: its longest prefix whose UTF-8 encoding is at most
/// `PREVIEW_BYTES` bytes long.
pub open spec fn preview(text: Seq<char>) -> Seq<char> {
    text.take(fitting(text, PREVIEW_BYTES as int))
}

/// The characters that fit are a prefix of the text whose encoding is within
/// the bytes; where a character is left over, it does not fit with them.
pub proof fn law_fitting_is_longest(text: Seq<char>, bytes: int)
    requires
        0 <= bytes,
    ensures
        0 <= fitting(text, bytes) <= text.len(),
        encode_utf8(text.take(fitting(text, bytes))).len() <= bytes,
        fitting(text, bytes) < text.len() ==> encode_utf8(
            text.take(fitting(text, bytes) + 1),
        ).len() > bytes,
    decreases text.len(),
{
    if text.len() > 0 && utf8_width(text[0]) <= bytes {
        let rest = text.drop_first();
        let left = bytes - utf8_width(text[0]);
        law_fitting_is_longest(rest, left);
        let k = fitting(rest, left);
        assert(text.take(k + 1).drop_first() =~= rest.take(k));
        assert(text.take(k + 1)[0] == text[0]);
        if k < rest.len() {
            assert(text.take(k + 2).drop_first() =~= rest.take(k + 1));
            assert(text.take(k + 2)[0] == text[0]);
        }
    } else {
        assert(text.take(0) =~= Seq::<char>::empty());
        if text.len() > 0 {
            assert(text.take(1).drop_first() =~= Seq::<char>::empty());
            assert(text.take(1)[0] == text[0]);
            assert(encode_utf8(text.take(1).drop_first()).len() == 0);
        }
    }
}

/// Whether an HTTP status reports success.
pub open spec fn is_success(status: u16) -> bool {
    200 <= status <= 299
}

/// The text of an HTTP response that holds the envelope: the payload of the
/// event stream where the content type names one, and the body otherwise.
pub open spec fn http_payload(content_type: Seq<char>, body: Seq<char>) -> Seq<char> {
    if contains_run(content_type, "text/event-stream"@) {
        sse_payload(body)
    } else {
        body
    }
}

/// Whether a text holds a character.
pub fn has_char(chars: &Vec<char>, c: char) -> (b: bool)
    ensures
        b == chars@.contains(c),
{
    let i = text::find_char(chars, 0, chars.len(), c);
    proof {
        assert(chars@.subrange(0, chars@.len() as int) =~= chars@);
        text::lemma_index_of(chars@, c);
    }
    i < chars.len()
}

/// The number of bytes that a character takes in UTF-8.
pub fn char_width(c: char) -> (w: usize)
    ensures
        w == utf8_width(c),
        1 <= w <= 4,
{
    proof {
        char_is_scalar(c);
    }
    let v: u32 = c as u32;
    if v <= 0x7F {
        1
    } else if v <= 0x7FF {
        2
    } else if v <= 0xFFFF {
        3
    } else {
        4
    }
}

/// The preview of a text.
pub fn make_preview(text: &str) -> (p: String)
    ensures
        p@ == preview(text@),
{
    let chars = text::to_chars(text);
    let n: usize = chars.len();
    let mut left: usize = PREVIEW_BYTES;
    let mut i: usize = 0;
    assert(chars@.skip(0) =~= chars@);
    while i < n && char_width(chars[i]) <= left
        invariant
            i <= n,
            n == chars@.len(),
            left <= PREVIEW_BYTES,
            fitting(chars@, PREVIEW_BYTES as int) == i + fitting(chars@.skip(i as int), left as int),
        decreases n - i,
    {
        assert(chars@.skip(i as int).drop_first() =~= chars@.skip(i + 1));
        left = left - char_width(chars[i]);
        i = i + 1;
    }
    text::substring(&chars, 0, i)
}

impl McpTransport {
    /// The child process for a command that was split into words: the first
    /// word is the program, the further words are arguments, the configured
    /// arguments come after them, and of the environment overrides those
    /// that are not empty reach the child.
    pub fn stdio_of_words(parts: &Vec<String>, args: &Vec<String>, env: &Vec<(String, String)>) -> (t:
        Self)
        requires
            parts.len() > 0,
        ensures
            t matches McpTransport::Stdio { program, args: child_args, env: child_env }
                && program@ == parts.deep_view()[0] && child_args.deep_view()
                == parts.deep_view().skip(1) + args.deep_view() && child_env.deep_view()
                == forwarded_env(env.deep_view()),
    {
        let program = parts[0].clone();
        let mut child_args: Vec<String> = Vec::new();
        let mut k: usize = 1;
        assert(child_args.deep_view() =~= parts.deep_view().subrange(1, 1));
        while k < parts.len()
            invariant
                1 <= k <= parts.len(),
                child_args.deep_view() == parts.deep_view().subrange(1, k as int),
            decreases parts.len() - k,
        {
            let ghost before = child_args.deep_view();
            let word = parts[k].clone();
            assert(word@ == parts.deep_view()[k as int]);
            child_args.push(word);
            assert(child_args.deep_view() =~= before.push(word@));
            assert(child_args.deep_view() =~= parts.deep_view().subrange(1, k + 1));
            k = k + 1;
        }
        assert(parts.deep_view().subrange(1, k as int) =~= parts.deep_view().skip(1));
        McpTransport::stdio_with(program, child_args, args, env)
    }

    /// The child process for a program: the given arguments, then the
    /// configured ones, and the environment overrides that are not empty.
    pub fn stdio_with(
        program: String,
        first_args: Vec<String>,
        args: &Vec<String>,
        env: &Vec<(String, String)>,
    ) -> (t: Self)
        ensures
            t matches McpTransport::Stdio { program: p, args: child_args, env: child_env } && p
                == program && child_args.deep_view() == first_args.deep_view() + args.deep_view()
                && child_env.deep_view() == forwarded_env(env.deep_view()),
    {
        let mut child_args = first_args;
        let ghost split_off = child_args.deep_view();
        let mut i: usize = 0;
        assert(split_off + args.deep_view().take(0) =~= split_off);
        while i < args.len()
            invariant
                i <= args.len(),
                child_args.deep_view() == split_off + args.deep_view().take(i as int),
            decreases args.len() - i,
        {
            let ghost before = child_args.deep_view();
            let arg = args[i].clone();
            assert(arg@ == args.deep_view()[i as int]);
            child_args.push(arg);
            assert(child_args.deep_view() =~= before.push(arg@));
            assert(child_args.deep_view() =~= split_off + args.deep_view().take(i + 1));
            i = i + 1;
        }
        assert(args.deep_view().take(i as int) =~= args.deep_view());
        let mut child_env: Vec<(String, String)> = Vec::new();
        let mut j: usize = 0;
        assert(child_env.deep_view() =~= forwarded_env(env.deep_view().take(0)));
        while j < env.len()
            invariant
                j <= env.len(),
                child_env.deep_view() == forwarded_env(env.deep_view().take(j as int)),
            decreases env.len() - j,
        {
            let ghost upto = env.deep_view().take(j + 1);
            assert(upto.drop_last() =~= env.deep_view().take(j as int));
            assert(upto.last() == env.deep_view()[j as int]);
            if !env[j].1.as_str().is_empty() {
                child_env.push((env[j].0.clone(), env[j].1.clone()));
                assert(child_env.deep_view() =~= forwarded_env(env.deep_view().take(j as int)).push(
                    env.deep_view()[j as int],
                ));
            }
            j = j + 1;
        }
        assert(env.deep_view().take(j as int) =~= env.deep_view());
        McpTransport::Stdio { program, args: child_args, env: child_env }
    }

    /// The child process for a command: the program and further arguments
    /// split off the command where it embeds a space, the configured
    /// arguments after them, and the environment overrides that are not
    /// empty. The caller spawns it, with all three standard streams piped.
    /// A command that names no program cannot be started.
    pub fn spawn_stdio(command: &str, args: &Vec<String>, env: &Vec<(String, String)>) -> (r: Result<
        Self,
        McpError,
    >)
        ensures
            !names_program(command@) ==> (r matches Err(McpError::TransportSpawn { detail })
                && detail@ == no_program_text()),
            names_program(command@) ==> (r matches Ok(
                McpTransport::Stdio { program, args: child_args, env: child_env },
            ) && program@ == stdio_program(command@) && child_args.deep_view() == stdio_args(
                command@,
                args.deep_view(),
            ) && child_env.deep_view() == forwarded_env(env.deep_view())),
    {
        let chars = text::to_chars(command);
        let parts = text::split_whitespace(&chars);
        assert(text::texts(parts@) =~= parts.deep_view());
        if parts.len() == 0 {
            Err(McpError::TransportSpawn { detail: "the command names no program".to_owned() })
        } else if has_char(&chars, ' ') {
            Ok(McpTransport::stdio_of_words(&parts, args, env))
        } else {
            let none: Vec<String> = Vec::new();
            assert(none.deep_view() + args.deep_view() =~= args.deep_view());
            Ok(McpTransport::stdio_with(command.to_owned(), none, args, env))
        }
    }

    /// The endpoint at a URL.
    pub fn http(url: String) -> (t: Self)
        ensures
            t == (McpTransport::Http { url }),
    {
        McpTransport::Http { url }
    }

    /// What goes on the wire for a request. A child gets the envelope as one
    /// line; an endpoint gets it as the body of a POST that accepts plain
    /// JSON and an event stream.
    pub fn send(&self, request: &JsonRpcRequest) -> (w: WireRequest)
        ensures
            match *self {
                McpTransport::Stdio { .. } => (w matches WireRequest::Line { text } && text@
                    == request_text(request.deep_view()) + seq!['\n']),
                McpTransport::Http { url } => (w matches WireRequest::Post {
                    url: target,
                    accept,
                    content_type,
                    body,
                } && target@ == url@ && accept@ == "application/json, text/event-stream"@
                    && content_type@ == "application/json"@ && body@ == request_text(
                    request.deep_view(),
                )),
            },
    {
        match self {
            McpTransport::Stdio { .. } => {
                let mut text = request.to_text();
                text::push_char(&mut text, '\n');
                assert(request_text(request.deep_view()).push('\n') =~= request_text(
                    request.deep_view(),
                ) + seq!['\n']);
                WireRequest::Line { text }
            },
            McpTransport::Http { url } => WireRequest::Post {
                url: url.clone(),
                accept: "application/json, text/event-stream".to_owned(),
                content_type: "application/json".to_owned(),
                body: request.to_text(),
            },
        }
    }

    /// Judges one read from a child's standard output. The end of the
    /// stream, a read of no bytes, fails the request: the transport is
    /// closed. A blank line, and a line that is no response envelope, are
    /// passed over; the first envelope is the response.
    pub fn receive_line(bytes_read: usize, line: &str) -> (r: Result<LineOutcome, McpError>)
        ensures
            bytes_read == 0 <==> r is Err,
            match r {
                Err(e) => e is TransportClosed,
                Ok(LineOutcome::Blank) => trim(line@).len() == 0,
                Ok(LineOutcome::Noise) => trim(line@).len() > 0 && parse_response(trim(line@))
                    is None,
                Ok(LineOutcome::Response(response)) => trim(line@).len() > 0 && parse_response(
                    trim(line@),
                ) == Some(response.deep_view()),
            },
    {
        if bytes_read == 0 {
            return Err(McpError::TransportClosed);
        }
        let chars = text::to_chars(line);
        let (a, b) = text::trim_bounds(&chars, 0, chars.len());
        assert(chars@.subrange(0, chars@.len() as int) =~= chars@);
        if a == b {
            return Ok(LineOutcome::Blank);
        }
        let trimmed = text::substring(&chars, a, b);
        match JsonRpcResponse::parse(trimmed.as_str()) {
            Some(response) => Ok(LineOutcome::Response(response)),
            None => Ok(LineOutcome::Noise),
        }
    }

    /// Judges an HTTP response. A status outside 200..=299 fails before the
    /// body is looked at. Otherwise the envelope is read from the body, or
    /// from the payload of the event stream where the content type names
    /// one; a text that is no envelope fails with a preview of it.
    pub fn receive_http(status: u16, content_type: &str, body: String) -> (r: Result<
        JsonRpcResponse,
        McpError,
    >)
        ensures
            !is_success(status) ==> (r matches Err(McpError::Http { status: s, body: b }) && s
                == status && b == body),
            is_success(status) ==> match parse_response(http_payload(content_type@, body@)) {
                Some(envelope) => (r matches Ok(response) && response.deep_view() == envelope),
                None => (r matches Err(McpError::Parse { preview: p }) && p@ == preview(
                    http_payload(content_type@, body@),
                )),
            },
    {
        if status < 200 || status > 299 {
            return Err(McpError::Http { status, body });
        }
        let kind = text::to_chars(content_type);
        let marker = text::to_chars("text/event-stream");
        let payload = if text::contains(&kind, &marker) {
            parse_sse_response(body.as_str())
        } else {
            body
        };
        match JsonRpcResponse::parse(payload.as_str()) {
            Some(response) => Ok(response),
            None => Err(McpError::Parse { preview: make_preview(payload.as_str()) }),
        }
    }
}

} // verus!
