//! The Ollama adapter: model resolution against the tag listing, request
//! building, reply handling, and the space-separated integer context.

use bott::config::BottConfig;
use bott::errors::{BottError, BottOllamaError};
use bott::llm::ollama::{
    build_request, format_answer_and_context, format_context, get_context, get_model, make_output,
    FetchOutcome, GenerateResponse, ModelMetadata, ModelTags,
};
use bott::llm::{
    get_debug_prompt, get_debug_system_prompt, get_query_system_prompt, select_backend, Backend,
    GenerateOutputOllama,
};

fn listing(names: &[&str]) -> ModelTags {
    ModelTags {
        models: names
            .iter()
            .map(|n| ModelMetadata { name: n.to_string(), size: 7 })
            .collect(),
    }
}

#[test]
fn unlisted_model_is_unavailable() {
    let mut c = BottConfig::default();
    c.set_key("ollama:model", "foo:7b").unwrap();
    let r = get_model(&FetchOutcome::Body(listing(&["llama2:7b"])), &c);
    assert_eq!(
        r,
        Err(BottError::Ollama(BottOllamaError::ModelUnavailable("foo:7b".to_string()))),
    );
}

#[test]
fn listed_model_resolves() {
    let c = BottConfig::default();
    let tags = listing(&["llama2:7b", "codellama:7b-instruct"]);
    assert_eq!(get_model(&FetchOutcome::Body(tags), &c), Ok("codellama:7b-instruct".to_string()));
}

#[test]
fn tag_listing_failures() {
    let c = BottConfig::default();
    assert_eq!(
        get_model(&FetchOutcome::NotReachable, &c),
        Err(BottError::Ollama(BottOllamaError::NotRunning)),
    );
    assert_eq!(
        get_model(&FetchOutcome::BadBody, &c),
        Err(BottError::Ollama(BottOllamaError::InvalidResponse)),
    );
    let mut no_model = BottConfig::default();
    no_model.delete_key("ollama:model").unwrap();
    assert_eq!(
        get_model(&FetchOutcome::Body(listing(&["llama2:7b"])), &no_model),
        Err(BottError::ConfigMissingKey),
    );
}

#[test]
fn end_to_end_generate() {
    let c = BottConfig::default();
    assert_eq!(select_backend(&c), Ok(Backend::Ollama));
    let tags = listing(&["llama2:7b", "codellama:7b-instruct"]);
    let model = get_model(&FetchOutcome::Body(tags), &c).unwrap();
    assert_eq!(model, "codellama:7b-instruct");
    let context = get_context("").unwrap();
    let req = build_request(model, "list all files", "Ubuntu 22.04", "zsh", false, "", "", context);
    assert_eq!(req.model, "codellama:7b-instruct");
    assert_eq!(req.prompt, "list all files");
    assert!(!req.stream);
    assert!(req.context.is_empty());
    assert_eq!(req.system, get_query_system_prompt("Ubuntu 22.04", "zsh"));
    let resp = GenerateResponse {
        model: req.model.clone(),
        response: "Use:\n```bash\nls -la\n```".to_string(),
        context: vec![1, 2, 3],
    };
    let out = make_output(FetchOutcome::Body(resp), false).unwrap();
    assert_eq!(out.raw_answer, "Use:\n```bash\nls -la\n```");
    assert_eq!(out.shell_command, "ls -la");
    assert_eq!(out.context, vec![1, 2, 3]);
}

#[test]
fn debug_request_resets_context_and_prompts() {
    let carried = vec![9usize, 9, 9];
    let req = build_request(
        "m".to_string(),
        "ignored query",
        "Arch",
        "fish",
        true,
        "rm -rf foo",
        "permission denied",
        carried,
    );
    assert_eq!(req.prompt, get_debug_prompt("rm -rf foo", "permission denied"));
    assert_eq!(req.prompt, "\n    input: rm -rf foo\n    output: permission denied\n    ");
    assert!(req.context.is_empty());
    assert_eq!(req.system, get_debug_system_prompt("Arch", "fish"));
}

#[test]
fn debug_reply_is_returned_verbatim() {
    let resp = GenerateResponse {
        model: "m".to_string(),
        response: "It failed because:\n```bash\nnot code\n```".to_string(),
        context: vec![4],
    };
    let out = make_output(FetchOutcome::Body(resp), true).unwrap();
    assert_eq!(out.raw_answer, "It failed because:\n```bash\nnot code\n```");
    assert_eq!(out.shell_command, out.raw_answer);
    assert_eq!(out.context, vec![4]);
}

#[test]
fn reply_without_block_is_empty_command_not_error() {
    let resp = GenerateResponse {
        model: "m".to_string(),
        response: "I cannot help with that.".to_string(),
        context: vec![],
    };
    let out = make_output(FetchOutcome::Body(resp), false).unwrap();
    assert_eq!(out.raw_answer, "I cannot help with that.");
    assert_eq!(out.shell_command, "");
}

#[test]
fn generate_failures() {
    assert_eq!(
        make_output(FetchOutcome::NotReachable, false),
        Err(BottError::Ollama(BottOllamaError::NotRunning)),
    );
    assert_eq!(
        make_output(FetchOutcome::BadBody, false),
        Err(BottError::Ollama(BottOllamaError::InvalidResponse)),
    );
}

#[test]
fn context_parsing() {
    assert_eq!(get_context(""), Some(vec![]));
    assert_eq!(get_context(" "), Some(vec![]));
    assert_eq!(get_context(" 1 2"), Some(vec![]));
    assert_eq!(get_context("1 2 3"), Some(vec![1, 2, 3]));
    assert_eq!(get_context("0"), Some(vec![0]));
    assert_eq!(get_context("+7"), Some(vec![7]));
    assert_eq!(get_context("1 x"), None);
    assert_eq!(get_context("1  2"), None);
    assert_eq!(get_context("1 2 "), None);
    assert_eq!(get_context("-1"), None);
    assert_eq!(get_context("99999999999999999999999999999999"), None);
}

#[test]
fn context_formatting_and_round_trip() {
    assert_eq!(format_context(&vec![]), "");
    assert_eq!(format_context(&vec![10, 0, 7]), "10 0 7");
    let v = vec![0usize, 1, 42, usize::MAX, 1000000007];
    assert_eq!(get_context(&format_context(&v)), Some(v));
}

#[test]
fn answer_line_format() {
    let o = GenerateOutputOllama {
        raw_answer: "Use:\n```bash\nls\n```".to_string(),
        shell_command: " ls \n".to_string(),
        context: vec![5, 6],
    };
    assert_eq!(
        format_answer_and_context(&o),
        "<RAW-ANSWER>Use:\n```bash\nls\n```</RAW-ANSWER><SHELL-COMMAND>ls</SHELL-COMMAND><CONTEXT>5 6</CONTEXT>",
    );
}
