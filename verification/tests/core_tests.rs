//! Backend selection, prompt construction, error messages, and the reply
//! filter.

use bott::config::BottConfig;
use bott::errors::{BottError, BottOllamaError, BottOpenaiError};
use bott::llm::openai::remove_control_characters;
use bott::llm::{
    get_debug_prompt, get_debug_system_prompt, get_query_system_prompt, select_backend, Backend,
};

#[test]
fn backend_selection() {
    let mut c = BottConfig::default();
    assert_eq!(select_backend(&c), Ok(Backend::Ollama));
    c.set_key("llm", "openai").unwrap();
    assert_eq!(select_backend(&c), Ok(Backend::Openai));
    c.set_key("llm", "").unwrap();
    assert_eq!(select_backend(&c), Err(BottError::ConfigMissingKey));
    c.set_key("llm", "gemini").unwrap();
    assert_eq!(select_backend(&c), Err(BottError::ConfigUnsupportedKey));
}

#[test]
fn query_prompt_carries_distro_and_shell() {
    let p = get_query_system_prompt("Ubuntu 22.04", "zsh");
    assert!(p.starts_with("\n    You are a helpful assistant"));
    assert!(p.contains("```bash and ``` tags"));
    assert!(p.ends_with("Operating system: Ubuntu 22.04\n    Shell: zsh\n    "));
}

#[test]
fn debug_system_prompt_carries_distro_and_shell() {
    let p = get_debug_system_prompt("Arch", "fish");
    assert!(p.starts_with("\n    You are a helpful code assistant"));
    assert!(p.contains("tell the user why the command is failing"));
    assert!(p.ends_with("Operating system: Arch\n    Shell: fish\n    "));
}

#[test]
fn debug_prompt_exact() {
    assert_eq!(
        get_debug_prompt("cargo buid", "no such subcommand"),
        "\n    input: cargo buid\n    output: no such subcommand\n    ",
    );
}

#[test]
fn error_messages() {
    assert_eq!(BottError::ConfigPath.message(), "Unable to get config path");
    assert_eq!(BottError::ConfigLoad.message(), "Unable to get config");
    assert_eq!(BottError::ConfigStore.message(), "Unable to store config");
    assert_eq!(BottError::ConfigMissingKey.message(), "Required config key is not set");
    assert_eq!(BottError::ConfigUnsupportedKey.message(), "Unsupported config key");
    assert_eq!(BottError::KeychainLoad.message(), "Unable to load keychain");
    assert_eq!(BottError::KeychainGet.message(), "Unable to get key from keychain");
    assert_eq!(BottError::KeychainSet.message(), "Unable to set key in keychain");
    assert_eq!(BottError::KeychainDelete.message(), "Unable delete key from keychain");
    assert_eq!(
        BottError::Ollama(BottOllamaError::NotRunning).message(),
        "Ollama not running?",
    );
    assert_eq!(
        BottError::Ollama(BottOllamaError::InvalidResponse).message(),
        "Ollama sent invalid response",
    );
    assert_eq!(
        BottError::Ollama(BottOllamaError::ModelUnavailable("foo:7b".to_string())).message(),
        "model not installed. Do `ollama pull foo:7b`",
    );
    assert_eq!(
        BottError::Ollama(BottOllamaError::UnableToGetResponse).message(),
        "Ollama sent invalid response",
    );
    assert_eq!(
        BottError::Ollama(BottOllamaError::UnknownError("boom".to_string())).message(),
        "Unexpected error: boom",
    );
    assert_eq!(
        BottError::Openai(BottOpenaiError::UnableToGetResponse).message(),
        "Openai sent invalid response",
    );
}

#[test]
fn control_characters_are_removed() {
    assert_eq!(remove_control_characters("a\u{0001}b\u{001F}c"), "abc");
    assert_eq!(remove_control_characters("one\nline\ttwo"), "onelinetwo");
    assert_eq!(remove_control_characters("kept: space and é ✓"), "kept: space and é ✓");
    assert_eq!(remove_control_characters(""), "");
}
