//! The conversation-context codec: a strict two-way inverse on every role,
//! whatever the content holds.

use base64::Engine;

use bott::llm::{ChatMessage, GenerateOutputOpenai};

#[test]
fn round_trip_all_roles_arbitrary_text() {
    let messages = vec![
        ChatMessage::System {
            content: "sys \"quoted\"\nsecond line\u{0001}ctrl".to_string(),
        },
        ChatMessage::User {
            content: "user 'q' \r\n\t bell:\u{0007} unicode: héllo ✓".to_string(),
        },
        ChatMessage::Assistant {
            content: Some("```bash\nls -la\n```".to_string()),
            tool_calls: vec!["{\"id\":\"call_1\"}".to_string()],
        },
        ChatMessage::Assistant {
            content: None,
            tool_calls: vec![],
        },
        ChatMessage::Tool {
            content: "tool output\nwith newline".to_string(),
            tool_call_id: "call_1".to_string(),
        },
        ChatMessage::Function {
            content: Some("fn content with = and +/".to_string()),
            name: "lookup".to_string(),
        },
        ChatMessage::Function {
            content: None,
            name: "noop".to_string(),
        },
    ];
    let encoded = GenerateOutputOpenai::encode_context(&messages);
    let decoded = GenerateOutputOpenai::decode_context(&encoded).expect("an encoded context must decode");
    assert_eq!(decoded, messages);
}

#[test]
fn round_trip_empty_context_and_empty_content() {
    let empty: Vec<ChatMessage> = vec![];
    let encoded = GenerateOutputOpenai::encode_context(&empty);
    assert_eq!(GenerateOutputOpenai::decode_context(&encoded), Some(vec![]));

    let messages = vec![ChatMessage::User { content: String::new() }];
    let encoded = GenerateOutputOpenai::encode_context(&messages);
    let decoded = GenerateOutputOpenai::decode_context(&encoded).expect("empty content must decode");
    assert_eq!(decoded, messages);
}

#[test]
fn encode_renders_standard_base64() {
    let messages = vec![ChatMessage::System { content: "hello".to_string() }];
    let encoded = GenerateOutputOpenai::encode_context(&messages);
    match &encoded[0] {
        ChatMessage::System { content } => {
            assert_eq!(content, "aGVsbG8=");
            assert_eq!(content, &base64::engine::general_purpose::STANDARD.encode("hello"));
        },
        other => panic!("role must be preserved, got {:?}", other),
    }
}

#[test]
fn encode_leaves_roles_and_tool_calls_untouched() {
    let messages = vec![ChatMessage::Assistant {
        content: Some("answer".to_string()),
        tool_calls: vec!["raw tool payload".to_string()],
    }];
    let encoded = GenerateOutputOpenai::encode_context(&messages);
    match &encoded[0] {
        ChatMessage::Assistant { content, tool_calls } => {
            assert_eq!(content.as_deref(), Some("YW5zd2Vy"));
            assert_eq!(tool_calls, &vec!["raw tool payload".to_string()]);
        },
        other => panic!("role must be preserved, got {:?}", other),
    }
}

#[test]
fn encoded_context_is_alphabet_safe() {
    let messages = vec![
        ChatMessage::System { content: "line one\nline \"two\"\u{0001}".to_string() },
        ChatMessage::User { content: "quotes: ' \" ` and a tab\t".to_string() },
        ChatMessage::Tool {
            content: "newline\nagain".to_string(),
            tool_call_id: "call_1".to_string(),
        },
    ];
    let encoded = GenerateOutputOpenai::encode_context(&messages);
    for m in &encoded {
        let content = match m {
            ChatMessage::System { content } => content,
            ChatMessage::User { content } => content,
            ChatMessage::Tool { content, .. } => content,
            other => panic!("role must be preserved, got {:?}", other),
        };
        assert!(
            content
                .chars()
                .all(|c| c.is_ascii_alphanumeric() || c == '+' || c == '/' || c == '='),
            "encoded content must stay within the base64 alphabet: {:?}",
            content,
        );
    }
}

#[test]
fn text_that_is_not_an_encoding_does_not_decode() {
    let bogus = vec![ChatMessage::System { content: "not base64!!".to_string() }];
    assert!(GenerateOutputOpenai::decode_context(&bogus).is_none());
}
