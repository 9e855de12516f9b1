//! The OpenAI adapter's decision logic: resolving model and credential,
//! initializing or decoding the conversation context, assembling the chat
//! request, and turning the reply into an output. The HTTP call itself
//! happens outside and hands in its outcome.

use vstd::prelude::*;

use crate::config::BottConfig;
use crate::errors::{BottError, BottOpenaiError, BottResult};
use crate::extract::{extract_bash_block, extract_bash_spec};
use crate::keychain::Keychain;
use crate::llm::{
    ctx_view, debug_prompt_spec, debug_system_prompt_spec, get_debug_prompt,
    get_debug_system_prompt, get_query_system_prompt, is_encoding_of, query_system_prompt_spec,
    strs_view, ChatMessage, ChatMessageView, GenerateOutputOpenai,
};
use crate::textutil::{push_char, str_to_chars, trim_spec, trim_str};

verus! {

/// `c` is outside the control-character range the reply filter removes.
pub open spec fn printable(c: char) -> bool {
    c as u32 > 0x1F
}

/// `s` with every control character removed.
pub open spec fn rm_ctl_spec(s: Seq<char>) -> Seq<char> {
    s.filter(|c: char| printable(c))
}

/// Removes control characters from a reply line.
#[verifier::loop_isolation(false)]
pub fn remove_control_characters(input: &str) -> (r: String)
    ensures
        r@ == rm_ctl_spec(input@),
{
    let chars = str_to_chars(input);
    let n = chars.len();
    let mut r = String::new();
    let mut i: usize = 0;
    proof {
        assert(input@.take(0) =~= Seq::<char>::empty());
        assert(rm_ctl_spec(Seq::<char>::empty()) =~= Seq::<char>::empty());
    }
    while i < n
        invariant
            i <= n,
            r@ == rm_ctl_spec(input@.take(i as int)),
        decreases n - i,
    {
        let c = chars[i];
        proof {
            assert(input@.take(i + 1).drop_last() =~= input@.take(i as int));
            assert(input@.take(i + 1).last() == c);
            reveal_with_fuel(Seq::<char>::filter, 2);
        }
        if (c as u32) > 0x1F {
            push_char(&mut r, c);
        }
        i = i + 1;
    }
    proof {
        assert(input@.take(n as int) =~= input@);
    }
    r
}

/// The conversation context a call starts from. A debug call, or a query
/// call without carried state, starts fresh: exactly one system message,
/// built for the mode. A query call with carried state decodes it first;
/// state that does not decode is a failed response.
pub fn get_context(
    distro: &str,
    shell: &str,
    debug: bool,
    external: Option<&Vec<ChatMessage>>,
) -> (r: BottResult<Vec<ChatMessage>>)
    ensures
        debug ==> (r matches Ok(v) && ctx_view(v@) == seq![
            (ChatMessageView::System { content: debug_system_prompt_spec(distro@, shell@) }),
        ]),
        !debug && external is None ==> (r matches Ok(v) && ctx_view(v@) == seq![
            (ChatMessageView::System { content: query_system_prompt_spec(distro@, shell@) }),
        ]),
        !debug ==> (external matches Some(ctx) ==> (forall|orig: Seq<ChatMessageView>|
            is_encoding_of(ctx@, orig) ==> (r matches Ok(v) && ctx_view(v@) == orig))),
        r matches Err(e) ==> e == BottError::Openai(BottOpenaiError::UnableToGetResponse),
{
    if debug {
        let sys = get_debug_system_prompt(distro, shell);
        let mut v: Vec<ChatMessage> = Vec::new();
        v.push(ChatMessage::System { content: sys });
        proof {
            assert(ctx_view(v@) =~= seq![
                (ChatMessageView::System { content: debug_system_prompt_spec(distro@, shell@) }),
            ]);
        }
        Ok(v)
    } else {
        match external {
            None => {
                let sys = get_query_system_prompt(distro, shell);
                let mut v: Vec<ChatMessage> = Vec::new();
                v.push(ChatMessage::System { content: sys });
                proof {
                    assert(ctx_view(v@) =~= seq![
                        (ChatMessageView::System {
                            content: query_system_prompt_spec(distro@, shell@),
                        }),
                    ]);
                }
                Ok(v)
            },
            Some(ctx) => match GenerateOutputOpenai::decode_context(ctx) {
                Some(v) => Ok(v),
                None => Err(BottError::Openai(BottOpenaiError::UnableToGetResponse)),
            },
        }
    }
}

/// Resolves the model to ask for; an unset model option is a missing
/// setting, reported before any network work.
pub fn get_model(config: &BottConfig) -> (r: BottResult<String>)
    ensures
        config.openai_options matches Some(o) ==> (r matches Ok(m) && m@ == o.model@),
        config.openai_options is None ==> r == Err::<String, BottError>(
            BottError::ConfigMissingKey,
        ),
{
    match &config.openai_options {
        Some(o) => Ok(o.model.clone()),
        None => Err(BottError::ConfigMissingKey),
    }
}

/// Everything one chat-completion call needs: the model, the bearer
/// credential, and the message sequence ending in the user prompt.
pub struct ChatRequest {
    pub model: String,
    pub api_key: String,
    pub messages: Vec<ChatMessage>,
}

/// Assembles the chat request: resolves model and credential, initializes
/// or decodes the context, and appends one user message holding the
/// prompt — the query itself, or the debug prompt built from the executed
/// command and its output. The missing-setting error occurs exactly when
/// the model option is absent, and the decode error never on a debug or
/// fresh call, nor on carried state that is an encoding; only the secret
/// store can fail beyond that.
pub fn prepare_request(
    config: &BottConfig,
    query: &str,
    distro: &str,
    shell: &str,
    debug: bool,
    debug_input: &str,
    debug_output: &str,
    external: Option<&Vec<ChatMessage>>,
) -> (r: BottResult<ChatRequest>)
    ensures
        config.openai_options is None ==> r == Err::<ChatRequest, BottError>(
            BottError::ConfigMissingKey,
        ),
        r == Err::<ChatRequest, BottError>(BottError::ConfigMissingKey)
            ==> config.openai_options is None,
        r matches Err(e) ==> e == BottError::ConfigMissingKey || e == BottError::KeychainLoad || e
            == BottError::KeychainGet || e == BottError::Openai(
            BottOpenaiError::UnableToGetResponse,
        ),
        debug ==> r != Err::<ChatRequest, BottError>(
            BottError::Openai(BottOpenaiError::UnableToGetResponse),
        ),
        !debug && external is None ==> r != Err::<ChatRequest, BottError>(
            BottError::Openai(BottOpenaiError::UnableToGetResponse),
        ),
        !debug ==> (external matches Some(ctx) ==> (forall|orig: Seq<ChatMessageView>|
            is_encoding_of(ctx@, orig) ==> r != Err::<ChatRequest, BottError>(
                BottError::Openai(BottOpenaiError::UnableToGetResponse),
            ))),
        r matches Ok(req) ==> (config.openai_options matches Some(o) && req.model@ == o.model@),
        debug ==> (r matches Ok(req) ==> ctx_view(req.messages@) == seq![
            (ChatMessageView::System { content: debug_system_prompt_spec(distro@, shell@) }),
            (ChatMessageView::User { content: debug_prompt_spec(debug_input@, debug_output@) }),
        ]),
        !debug && external is None ==> (r matches Ok(req) ==> ctx_view(req.messages@) == seq![
            (ChatMessageView::System { content: query_system_prompt_spec(distro@, shell@) }),
            (ChatMessageView::User { content: query@ }),
        ]),
        !debug ==> (external matches Some(ctx) ==> (r matches Ok(req) ==> (forall|
            orig: Seq<ChatMessageView>,
        |
            is_encoding_of(ctx@, orig) ==> ctx_view(req.messages@) == orig.push(
                ChatMessageView::User { content: query@ },
            )))),
{
    let model = match get_model(config) {
        Ok(m) => m,
        Err(e) => {
            return Err(e);
        },
    };
    let api_key = match Keychain::load("openai") {
        Ok(keychain) => match keychain.get("api_key") {
            Ok(Some(k)) => k,
            Ok(None) => {
                return Err(BottError::KeychainGet);
            },
            Err(e) => {
                return Err(e);
            },
        },
        Err(e) => {
            return Err(e);
        },
    };
    let mut messages = match get_context(distro, shell, debug, external) {
        Ok(v) => v,
        Err(e) => {
            return Err(e);
        },
    };
    let prompt = if debug {
        get_debug_prompt(debug_input, debug_output)
    } else {
        String::from_str(query)
    };
    let ghost before = messages@;
    messages.push(ChatMessage::User { content: prompt });
    proof {
        assert(ctx_view(messages@) =~= ctx_view(before).push(
            ChatMessageView::User {
                content: if debug {
                    debug_prompt_spec(debug_input@, debug_output@)
                } else {
                    query@
                },
            },
        ));
        if debug {
            assert(ctx_view(messages@) =~= seq![
                (ChatMessageView::System { content: debug_system_prompt_spec(distro@, shell@) }),
                (ChatMessageView::User {
                    content: debug_prompt_spec(debug_input@, debug_output@),
                }),
            ]);
        }
        if !debug && external is None {
            assert(ctx_view(messages@) =~= seq![
                (ChatMessageView::System { content: query_system_prompt_spec(distro@, shell@) }),
                (ChatMessageView::User { content: query@ }),
            ]);
        }
    }
    Ok(ChatRequest { model, api_key, messages })
}

/// What came of the chat-completion call: the first choice's content and
/// tool calls, or a transport or decoding failure.
#[derive(Debug)]
pub enum ChatOutcome {
    Reply { content: Option<String>, tool_calls: Vec<String> },
    Failure,
}

/// Turns the outcome of the chat call into the backend output. The
/// assistant turn is appended to the context only on success, so no
/// partial state is ever handed back. A debug reply is returned verbatim;
/// otherwise the first fenced bash block is extracted, its absence giving
/// an empty shell command, never an error.
pub fn make_output(messages: Vec<ChatMessage>, outcome: ChatOutcome, debug: bool) -> (r: BottResult<
    GenerateOutputOpenai,
>)
    ensures
        outcome is Failure ==> r == Err::<GenerateOutputOpenai, BottError>(
            BottError::Openai(BottOpenaiError::UnableToGetResponse),
        ),
        outcome matches ChatOutcome::Reply { content, tool_calls } ==> (r matches Ok(o)
            && o.raw_answer@ == reply_text(content) && ctx_view(o.context@) == ctx_view(
            messages@,
        ).push(
            ChatMessageView::Assistant {
                content: Some(reply_text(content)),
                tool_calls: strs_view(tool_calls@),
            },
        ) && (if debug {
            o.shell_command@ == reply_text(content)
        } else {
            match extract_bash_spec(reply_text(content)) {
                Some(c) => o.shell_command@ == c,
                None => o.shell_command@ == Seq::<char>::empty(),
            }
        })),
{
    match outcome {
        ChatOutcome::Failure => Err(BottError::Openai(BottOpenaiError::UnableToGetResponse)),
        ChatOutcome::Reply { content, tool_calls } => {
            let text = match content {
                Some(c) => c,
                None => String::new(),
            };
            let mut context = messages;
            let ghost before = context@;
            context.push(
                ChatMessage::Assistant { content: Some(text.clone()), tool_calls },
            );
            proof {
                assert(ctx_view(context@) =~= ctx_view(before).push(context@.last()@));
            }
            let shell_command = if debug {
                text.clone()
            } else {
                match extract_bash_block(text.as_str()) {
                    Some(code) => code,
                    None => String::new(),
                }
            };
            Ok(GenerateOutputOpenai { raw_answer: text, shell_command, context })
        },
    }
}

/// The reply's text: the first choice's content, or nothing.
pub open spec fn reply_text(content: Option<String>) -> Seq<char> {
    match content {
        Some(c) => c@,
        None => Seq::<char>::empty(),
    }
}

/// The tagged single-line form in which an output is handed back to the
/// calling shell; the context travels as the serialized form of its
/// encoded messages, which the caller supplies.
pub open spec fn answer_line_spec(o: GenerateOutputOpenai, context_text: Seq<char>) -> Seq<char> {
    "<RAW-ANSWER>"@ + o.raw_answer@ + "</RAW-ANSWER><SHELL-COMMAND>"@ + trim_spec(o.shell_command@)
        + "</SHELL-COMMAND><CONTEXT>"@ + context_text + "</CONTEXT>"@
}

/// Renders an output as the delimited tagged text the calling shell
/// consumes, around the serialized encoded context.
pub fn format_answer_and_context(output: &GenerateOutputOpenai, context_text: &str) -> (r: String)
    ensures
        r@ == answer_line_spec(*output, context_text@),
{
    let mut r = String::from_str("<RAW-ANSWER>");
    r.append(output.raw_answer.as_str());
    r.append("</RAW-ANSWER><SHELL-COMMAND>");
    let trimmed = trim_str(output.shell_command.as_str());
    r.append(trimmed.as_str());
    r.append("</SHELL-COMMAND><CONTEXT>");
    r.append(context_text);
    r.append("</CONTEXT>");
    r
}

} // verus!
