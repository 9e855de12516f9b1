//! The OpenAI adapter: context initialization and decoding, debug
//! isolation, reply handling, and the reply-line filter.

use bott::config::BottConfig;
use bott::errors::{BottError, BottOpenaiError};
use bott::llm::openai::{
    format_answer_and_context, get_context, get_model, make_output, prepare_request, ChatOutcome,
};
use bott::llm::{
    get_debug_system_prompt, get_query_system_prompt, ChatMessage, GenerateOutputOpenai,
};

fn prior_conversation() -> Vec<ChatMessage> {
    vec![
        ChatMessage::System { content: "old system prompt".to_string() },
        ChatMessage::User { content: "old question".to_string() },
        ChatMessage::Assistant {
            content: Some("old answer".to_string()),
            tool_calls: vec![],
        },
    ]
}

#[test]
fn debug_context_never_inherits() {
    let carried = GenerateOutputOpenai::encode_context(&prior_conversation());
    // Two debug calls in a row: each starts from exactly one system
    // message, whatever state is carried.
    for _ in 0..2 {
        let ctx = get_context("Debian", "bash", true, Some(&carried)).unwrap();
        assert_eq!(ctx.len(), 1);
        assert_eq!(
            ctx[0],
            ChatMessage::System { content: get_debug_system_prompt("Debian", "bash") },
        );
    }
}

#[test]
fn fresh_query_context_is_one_system_message() {
    let ctx = get_context("Debian", "bash", false, None).unwrap();
    assert_eq!(ctx.len(), 1);
    assert_eq!(
        ctx[0],
        ChatMessage::System { content: get_query_system_prompt("Debian", "bash") },
    );
}

#[test]
fn carried_context_is_decoded_before_use() {
    let original = prior_conversation();
    let carried = GenerateOutputOpenai::encode_context(&original);
    let ctx = get_context("Debian", "bash", false, Some(&carried)).unwrap();
    assert_eq!(ctx, original);
}

#[test]
fn undecodable_context_is_a_failed_response() {
    let bogus = vec![ChatMessage::System { content: "***".to_string() }];
    assert_eq!(
        get_context("Debian", "bash", false, Some(&bogus)),
        Err(BottError::Openai(BottOpenaiError::UnableToGetResponse)),
    );
}

#[test]
fn model_resolution() {
    let c = BottConfig::default();
    assert_eq!(get_model(&c), Ok("gpt-4".to_string()));
    let mut no_model = BottConfig::default();
    no_model.delete_key("openai:model").unwrap();
    assert_eq!(get_model(&no_model), Err(BottError::ConfigMissingKey));
}

#[test]
fn prepare_fails_fast_without_model() {
    let mut c = BottConfig::default();
    c.delete_key("openai:model").unwrap();
    let r = prepare_request(&c, "q", "Debian", "bash", false, "", "", None);
    assert_eq!(r.err(), Some(BottError::ConfigMissingKey));
}

#[test]
fn reply_is_appended_and_extracted() {
    let messages = get_context("Debian", "bash", false, None).unwrap();
    let reply = "Run this:\n```bash\npwd\n```".to_string();
    let out = make_output(
        messages.clone(),
        ChatOutcome::Reply {
            content: Some(reply.clone()),
            tool_calls: vec!["tool payload".to_string()],
        },
        false,
    )
    .unwrap();
    assert_eq!(out.raw_answer, reply);
    assert_eq!(out.shell_command, "pwd");
    assert_eq!(out.context.len(), messages.len() + 1);
    assert_eq!(out.context[..messages.len()], messages[..]);
    assert_eq!(
        out.context[messages.len()],
        ChatMessage::Assistant {
            content: Some(reply),
            tool_calls: vec!["tool payload".to_string()],
        },
    );
}

#[test]
fn debug_reply_is_returned_verbatim_openai() {
    let out = make_output(
        vec![],
        ChatOutcome::Reply {
            content: Some("because the file is missing".to_string()),
            tool_calls: vec![],
        },
        true,
    )
    .unwrap();
    assert_eq!(out.raw_answer, "because the file is missing");
    assert_eq!(out.shell_command, out.raw_answer);
}

#[test]
fn empty_choice_content_is_empty_text() {
    let out = make_output(
        vec![],
        ChatOutcome::Reply { content: None, tool_calls: vec![] },
        false,
    )
    .unwrap();
    assert_eq!(out.raw_answer, "");
    assert_eq!(out.shell_command, "");
}

#[test]
fn transport_failure_is_unable_to_get_response() {
    assert_eq!(
        make_output(vec![], ChatOutcome::Failure, false),
        Err(BottError::Openai(BottOpenaiError::UnableToGetResponse)),
    );
}

#[test]
fn answer_line_format_openai() {
    let o = GenerateOutputOpenai {
        raw_answer: "raw".to_string(),
        shell_command: "  cmd  ".to_string(),
        context: vec![],
    };
    assert_eq!(
        format_answer_and_context(&o, "[{\"role\":\"system\"}]"),
        "<RAW-ANSWER>raw</RAW-ANSWER><SHELL-COMMAND>cmd</SHELL-COMMAND><CONTEXT>[{\"role\":\"system\"}]</CONTEXT>",
    );
}
