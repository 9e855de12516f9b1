//! The generation core shared by both backends: prompt construction, the
//! message type of the OpenAI-style conversation context, the reversible
//! per-message content codec that lets that context survive an environment
//! variable, and backend selection.

pub mod ollama;
pub mod openai;

use vstd::prelude::*;

use base64::Engine;

use crate::config::BottConfig;
use crate::errors::{BottError, BottResult};
use crate::textutil::str_eq;

verus! {

/// The system prompt of a query call: ask for one fenced bash script for
/// this operating system and shell.
pub open spec fn query_system_prompt_spec(distro: Seq<char>, shell: Seq<char>) -> Seq<char> {
    "\n    You are a helpful assistant who helps people with:\n    1) Writing single line shell scripts for terminal usage. Bash/Shell scripts must always be enclosed between ```bash and ``` tags. Return a single bash script only please. Also, give a very brief explanation of what the script does. The bash code needs to be compatible with the users operating system and shell.\n    2) Any other miscellaneous tasks.\n    For your information, \n    Operating system: "@
        + distro + "\n    Shell: "@ + shell + "\n    "@
}

/// The system prompt of a debug call: explain why the last command failed.
pub open spec fn debug_system_prompt_spec(distro: Seq<char>, shell: Seq<char>) -> Seq<char> {
    "\n    You are a helpful code assistant who helps people write single line bash scripts for terminal usage. Given an input command and the corresponding output, tell the user why the command is failing. Write your answer in a single line with newlines using `\\n` and double quoutes escaped\n    For your information, \n    Operating system: "@
        + distro + "\n    Shell: "@ + shell + "\n    "@
}

/// The user prompt of a debug call, built from the last executed command
/// and its output.
pub open spec fn debug_prompt_spec(input: Seq<char>, output: Seq<char>) -> Seq<char> {
    "\n    input: "@ + input + "\n    output: "@ + output + "\n    "@
}

/// Renders the query-mode system prompt.
pub fn get_query_system_prompt(distro: &str, shell: &str) -> (r: String)
    ensures
        r@ == query_system_prompt_spec(distro@, shell@),
{
    let mut r = String::from_str(
        "\n    You are a helpful assistant who helps people with:\n    1) Writing single line shell scripts for terminal usage. Bash/Shell scripts must always be enclosed between ```bash and ``` tags. Return a single bash script only please. Also, give a very brief explanation of what the script does. The bash code needs to be compatible with the users operating system and shell.\n    2) Any other miscellaneous tasks.\n    For your information, \n    Operating system: ",
    );
    r.append(distro);
    r.append("\n    Shell: ");
    r.append(shell);
    r.append("\n    ");
    r
}

/// Renders the debug-mode system prompt.
pub fn get_debug_system_prompt(distro: &str, shell: &str) -> (r: String)
    ensures
        r@ == debug_system_prompt_spec(distro@, shell@),
{
    let mut r = String::from_str(
        "\n    You are a helpful code assistant who helps people write single line bash scripts for terminal usage. Given an input command and the corresponding output, tell the user why the command is failing. Write your answer in a single line with newlines using `\\n` and double quoutes escaped\n    For your information, \n    Operating system: ",
    );
    r.append(distro);
    r.append("\n    Shell: ");
    r.append(shell);
    r.append("\n    ");
    r
}

/// Renders the debug-mode user prompt from the executed command and its
/// output.
pub fn get_debug_prompt(input: &str, output: &str) -> (r: String)
    ensures
        r@ == debug_prompt_spec(input@, output@),
{
    let mut r = String::from_str("\n    input: ");
    r.append(input);
    r.append("\n    output: ");
    r.append(output);
    r.append("\n    ");
    r
}

/// One turn of an OpenAI-style conversation. Only the textual content is
/// interpreted by this crate; tool-call payloads and identifiers are
/// carried through unmodified.
#[derive(Debug, Clone, PartialEq)]
pub enum ChatMessage {
    System { content: String },
    User { content: String },
    Assistant { content: Option<String>, tool_calls: Vec<String> },
    Tool { content: String, tool_call_id: String },
    Function { content: Option<String>, name: String },
}

/// The mathematical shape of a message: its role and the character
/// sequences it carries.
pub enum ChatMessageView {
    System { content: Seq<char> },
    User { content: Seq<char> },
    Assistant { content: Option<Seq<char>>, tool_calls: Seq<Seq<char>> },
    Tool { content: Seq<char>, tool_call_id: Seq<char> },
    Function { content: Option<Seq<char>>, name: Seq<char> },
}

impl View for ChatMessage {
    type V = ChatMessageView;

    open spec fn view(&self) -> ChatMessageView {
        match self {
            ChatMessage::System { content } => ChatMessageView::System { content: content@ },
            ChatMessage::User { content } => ChatMessageView::User { content: content@ },
            ChatMessage::Assistant { content, tool_calls } => ChatMessageView::Assistant {
                content: match content {
                    Some(c) => Some(c@),
                    None => None,
                },
                tool_calls: strs_view(tool_calls@),
            },
            ChatMessage::Tool { content, tool_call_id } => ChatMessageView::Tool {
                content: content@,
                tool_call_id: tool_call_id@,
            },
            ChatMessage::Function { content, name } => ChatMessageView::Function {
                content: match content {
                    Some(c) => Some(c@),
                    None => None,
                },
                name: name@,
            },
        }
    }
}

/// The views of a message sequence, in order.
pub open spec fn ctx_view(s: Seq<ChatMessage>) -> Seq<ChatMessageView> {
    Seq::new(s.len(), |i: int| s[i]@)
}

/// The views of a string sequence, in order.
pub open spec fn strs_view(s: Seq<String>) -> Seq<Seq<char>> {
    Seq::new(s.len(), |i: int| s[i]@)
}

/// The binary-to-text transform applied to one message content: the
/// standard base64 rendering of the content's UTF-8 bytes. Named rather
/// than spelled out; the codec contracts below relate everything to it.
pub uninterp spec fn b64_of(s: Seq<char>) -> Seq<char>;

/// `s` is short enough that its base64 rendering cannot overflow a byte
/// count, whatever its characters.
pub open spec fn content_fits(s: Seq<char>) -> bool {
    s.len() <= usize::MAX as int / 6
}

/// `c` is a character of the standard base64 alphabet, `=` padding
/// included.
pub open spec fn is_b64_char(c: char) -> bool {
    let u = c as u32;
    (0x41 <= u && u <= 0x5A) || (0x61 <= u && u <= 0x7A) || (0x30 <= u && u <= 0x39) || u == 0x2B
        || u == 0x2F || u == 0x3D
}

/// Every character of `s` is in the base64 alphabet: such text carries no
/// quotes, newlines or control characters, so it survives an environment
/// variable unharmed.
pub open spec fn b64_text(s: Seq<char>) -> bool {
    forall|i: int| 0 <= i < s.len() ==> is_b64_char(#[trigger] s[i])
}

/// Relies on base64's `general_purpose::STANDARD` engine (RFC 4648,
/// standard alphabet, padded): the rendering of a string's UTF-8 bytes is
/// a function of the string alone, and every character of it is in
/// `[A-Za-z0-9+/=]`. The length bound keeps the engine's output-size
/// arithmetic inside `usize`.
#[verifier::external_body]
fn encode_content(s: &str) -> (r: String)
    requires
        content_fits(s@),
    ensures
        r@ == b64_of(s@),
        b64_text(r@),
{
    base64::engine::general_purpose::STANDARD.encode(s.as_bytes())
}

/// Relies on base64's decode for the same engine: decoding inverts
/// encoding, so any string that is the rendering of some content decodes
/// back to exactly that content.
#[verifier::external_body]
fn decode_content(s: &str) -> (r: Option<String>)
    ensures
        r is None ==> forall|orig: Seq<char>| s@ != b64_of(orig),
        r matches Some(d) ==> forall|orig: Seq<char>| s@ == b64_of(orig) ==> d@ == orig,
{
    match base64::engine::general_purpose::STANDARD.decode(s.as_bytes()) {
        Ok(bytes) => match String::from_utf8(bytes) {
            Ok(text) => Some(text),
            Err(_) => None,
        },
        Err(_) => None,
    }
}

/// Every content the message carries is short enough to encode.
pub open spec fn msg_fits(m: ChatMessageView) -> bool {
    match m {
        ChatMessageView::System { content } => content_fits(content),
        ChatMessageView::User { content } => content_fits(content),
        ChatMessageView::Assistant { content, .. } => match content {
            Some(c) => content_fits(c),
            None => true,
        },
        ChatMessageView::Tool { content, .. } => content_fits(content),
        ChatMessageView::Function { content, .. } => match content {
            Some(c) => content_fits(c),
            None => true,
        },
    }
}

/// One message after the content transform: the role and every field that
/// is not textual content are untouched, the content is replaced by its
/// base64 rendering.
pub open spec fn enc_msg_view(m: ChatMessageView) -> ChatMessageView {
    match m {
        ChatMessageView::System { content } => ChatMessageView::System { content: b64_of(content) },
        ChatMessageView::User { content } => ChatMessageView::User { content: b64_of(content) },
        ChatMessageView::Assistant { content, tool_calls } => ChatMessageView::Assistant {
            content: match content {
                Some(c) => Some(b64_of(c)),
                None => None,
            },
            tool_calls,
        },
        ChatMessageView::Tool { content, tool_call_id } => ChatMessageView::Tool {
            content: b64_of(content),
            tool_call_id,
        },
        ChatMessageView::Function { content, name } => ChatMessageView::Function {
            content: match content {
                Some(c) => Some(b64_of(c)),
                None => None,
            },
            name,
        },
    }
}

/// The message's textual content, where present, is base64-alphabet text.
pub open spec fn msg_content_b64(m: ChatMessageView) -> bool {
    match m {
        ChatMessageView::System { content } => b64_text(content),
        ChatMessageView::User { content } => b64_text(content),
        ChatMessageView::Assistant { content, .. } => match content {
            Some(c) => b64_text(c),
            None => true,
        },
        ChatMessageView::Tool { content, .. } => b64_text(content),
        ChatMessageView::Function { content, .. } => match content {
            Some(c) => b64_text(c),
            None => true,
        },
    }
}

/// `enc` is, message for message, the encoded form of `orig`.
pub open spec fn is_encoding_of(enc: Seq<ChatMessage>, orig: Seq<ChatMessageView>) -> bool {
    enc.len() == orig.len() && forall|i: int|
        0 <= i < enc.len() ==> #[trigger] enc[i]@ == enc_msg_view(orig[i])
}

fn clone_strings(v: &Vec<String>) -> (r: Vec<String>)
    ensures
        r@ == v@,
{
    let mut r: Vec<String> = Vec::new();
    let n = v.len();
    let mut i: usize = 0;
    while i < n
        invariant
            n == v@.len(),
            i <= n,
            r@ == v@.take(i as int),
        decreases n - i,
    {
        r.push(v[i].clone());
        i = i + 1;
        proof {
            assert(r@ =~= v@.take(i as int));
        }
    }
    proof {
        assert(v@.take(n as int) =~= v@);
    }
    r
}

fn encode_msg(m: &ChatMessage) -> (r: ChatMessage)
    requires
        msg_fits(m@),
    ensures
        r@ == enc_msg_view(m@),
        msg_content_b64(r@),
{
    match m {
        ChatMessage::System { content } => ChatMessage::System {
            content: encode_content(content.as_str()),
        },
        ChatMessage::User { content } => ChatMessage::User {
            content: encode_content(content.as_str()),
        },
        ChatMessage::Assistant { content, tool_calls } => {
            let c = match content {
                Some(c) => Some(encode_content(c.as_str())),
                None => None,
            };
            ChatMessage::Assistant { content: c, tool_calls: clone_strings(tool_calls) }
        },
        ChatMessage::Tool { content, tool_call_id } => ChatMessage::Tool {
            content: encode_content(content.as_str()),
            tool_call_id: tool_call_id.clone(),
        },
        ChatMessage::Function { content, name } => {
            let c = match content {
                Some(c) => Some(encode_content(c.as_str())),
                None => None,
            };
            ChatMessage::Function { content: c, name: name.clone() }
        },
    }
}

fn decode_msg(m: &ChatMessage) -> (r: Option<ChatMessage>)
    ensures
        forall|orig: ChatMessageView| m@ == enc_msg_view(orig) ==> (r matches Some(d) && d@
            == orig),
{
    match m {
        ChatMessage::System { content } => {
            let dc = decode_content(content.as_str());
            match dc {
                Some(d) => Some(ChatMessage::System { content: d }),
                None => None,
            }
        },
        ChatMessage::User { content } => {
            let dc = decode_content(content.as_str());
            match dc {
                Some(d) => Some(ChatMessage::User { content: d }),
                None => None,
            }
        },
        ChatMessage::Assistant { content, tool_calls } => match content {
            Some(c) => {
                let dc = decode_content(c.as_str());
                match dc {
                    Some(d) => Some(
                        ChatMessage::Assistant {
                            content: Some(d),
                            tool_calls: clone_strings(tool_calls),
                        },
                    ),
                    None => None,
                }
            },
            None => Some(
                ChatMessage::Assistant { content: None, tool_calls: clone_strings(tool_calls) },
            ),
        },
        ChatMessage::Tool { content, tool_call_id } => {
            let dc = decode_content(content.as_str());
            match dc {
                Some(d) => Some(
                    ChatMessage::Tool { content: d, tool_call_id: tool_call_id.clone() },
                ),
                None => None,
            }
        },
        ChatMessage::Function { content, name } => match content {
            Some(c) => {
                let dc = decode_content(c.as_str());
                match dc {
                    Some(d) => Some(ChatMessage::Function { content: Some(d), name: name.clone() }),
                    None => None,
                }
            },
            None => Some(ChatMessage::Function { content: None, name: name.clone() }),
        },
    }
}

impl GenerateOutputOpenai {
    /// Applies the content transform to every message, so the sequence can
    /// travel through an environment variable without loss: the result is
    /// the encoding of the input, and every content it carries is
    /// base64-alphabet text.
    pub fn encode_context(context: &Vec<ChatMessage>) -> (r: Vec<ChatMessage>)
        requires
            forall|i: int| 0 <= i < context@.len() ==> msg_fits(#[trigger] context@[i]@),
        ensures
            is_encoding_of(r@, ctx_view(context@)),
            forall|i: int| 0 <= i < r@.len() ==> msg_content_b64(#[trigger] r@[i]@),
    {
        let mut r: Vec<ChatMessage> = Vec::new();
        let n = context.len();
        let mut k: usize = 0;
        while k < n
            invariant
                n == context@.len(),
                k <= n,
                r@.len() == k,
                forall|i: int| 0 <= i < n ==> msg_fits(#[trigger] context@[i]@),
                forall|i: int| 0 <= i < k ==> #[trigger] r@[i]@ == enc_msg_view(context@[i]@),
                forall|i: int| 0 <= i < k ==> msg_content_b64(#[trigger] r@[i]@),
            decreases n - k,
        {
            r.push(encode_msg(&context[k]));
            k = k + 1;
        }
        r
    }

    /// Undoes the content transform on every message. For any original
    /// sequence whose encoding the input is, the result is exactly that
    /// original: decoding inverts encoding on all message sequences.
    pub fn decode_context(context: &Vec<ChatMessage>) -> (r: Option<Vec<ChatMessage>>)
        ensures
            forall|orig: Seq<ChatMessageView>| is_encoding_of(context@, orig) ==> (r matches Some(v)
                && ctx_view(v@) == orig),
    {
        let mut out: Vec<ChatMessage> = Vec::new();
        let n = context.len();
        let mut k: usize = 0;
        while k < n
            invariant
                n == context@.len(),
                k <= n,
                out@.len() == k,
                forall|orig: Seq<ChatMessageView>| #[trigger] is_encoding_of(context@, orig)
                    ==> forall|i: int| 0 <= i < k ==> #[trigger] out@[i]@ == orig[i],
            decreases n - k,
        {
            let dm = decode_msg(&context[k]);
            match dm {
                Some(d) => {
                    out.push(d);
                },
                None => {
                    proof {
                        assert forall|orig: Seq<ChatMessageView>| !is_encoding_of(
                            context@,
                            orig,
                        ) by {
                            if is_encoding_of(context@, orig) {
                                assert(context@[k as int]@ == enc_msg_view(orig[k as int]));
                            }
                        }
                    }
                    return None;
                },
            }
            k = k + 1;
        }
        proof {
            assert forall|orig: Seq<ChatMessageView>| is_encoding_of(context@, orig) implies ctx_view(
                out@,
            ) == orig by {
                assert(ctx_view(out@) =~= orig);
            }
        }
        Some(out)
    }
}

/// What a generation call produced on the Ollama backend.
#[derive(Debug, Clone, PartialEq)]
pub struct GenerateOutputOllama {
    pub raw_answer: String,
    pub shell_command: String,
    pub context: Vec<usize>,
}

/// What a generation call produced on the OpenAI backend.
#[derive(Debug, Clone, PartialEq)]
pub struct GenerateOutputOpenai {
    pub raw_answer: String,
    pub shell_command: String,
    pub context: Vec<ChatMessage>,
}

/// A backend-tagged generation result; the tag is preserved end-to-end so
/// printing code never guesses which backend produced a value.
#[derive(Debug)]
pub enum GenerateOutput {
    Ollama(GenerateOutputOllama),
    Openai(GenerateOutputOpenai),
}

/// One of the two supported backends.
#[derive(Debug, Clone, Copy, PartialEq, Eq, Structural)]
pub enum Backend {
    Ollama,
    Openai,
}

proof fn lemma_backends_distinct()
    ensures
        "ollama"@ != "openai"@,
        "ollama"@.len() > 0,
        "openai"@.len() > 0,
{
    reveal_strlit("ollama");
    reveal_strlit("openai");
    assert("ollama"@.len() == 6);
    assert("openai"@.len() == 6);
    assert("ollama"@[1] == 'l');
    assert("openai"@[1] == 'p');
}

/// Reads the active backend out of the settings snapshot. An empty name is
/// a missing setting; a name outside the closed set of backends is an
/// unsupported configuration.
pub fn select_backend(config: &BottConfig) -> (r: BottResult<Backend>)
    ensures
        config.llm@ == "ollama"@ ==> r == Ok::<Backend, BottError>(Backend::Ollama),
        config.llm@ == "openai"@ ==> r == Ok::<Backend, BottError>(Backend::Openai),
        config.llm@.len() == 0 ==> r == Err::<Backend, BottError>(BottError::ConfigMissingKey),
        config.llm@ != "ollama"@ && config.llm@ != "openai"@ && config.llm@.len() > 0 ==> r
            == Err::<Backend, BottError>(BottError::ConfigUnsupportedKey),
{
    proof {
        lemma_backends_distinct();
    }
    if str_eq(config.llm.as_str(), "ollama") {
        Ok(Backend::Ollama)
    } else if str_eq(config.llm.as_str(), "openai") {
        Ok(Backend::Openai)
    } else if config.llm.as_str().is_empty() {
        Err(BottError::ConfigMissingKey)
    } else {
        Err(BottError::ConfigUnsupportedKey)
    }
}

} // verus!
