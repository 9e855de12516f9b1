//! Settings key routing: model names land in the plain document, the
//! API key never does, and unrecognized keys are rejected.

use bott::config::BottConfig;
use bott::errors::BottError;
use bott::keychain::Keychain;

#[test]
fn default_settings() {
    let c = BottConfig::default();
    assert_eq!(c.version, "0.1.0");
    assert_eq!(c.llm, "ollama");
    assert_eq!(c.ollama_options.unwrap().model, "codellama:7b-instruct");
    assert_eq!(c.openai_options.unwrap().model, "gpt-4");
}

#[test]
fn api_key_never_touches_the_document() {
    let mut c = BottConfig::default();
    // The secret store may or may not be reachable here; either way the
    // plain settings document must stay exactly as it was.
    let _ = c.set_key("openai:api_key", "sk-test");
    assert_eq!(c, BottConfig::default());
}

#[test]
fn model_keys_land_in_the_document() {
    let mut c = BottConfig::default();
    assert!(c.set_key("openai:model", "gpt-4o").is_ok());
    assert_eq!(c.openai_options.as_ref().unwrap().model, "gpt-4o");
    assert!(c.set_key("ollama:model", "mistral:7b").is_ok());
    assert_eq!(c.ollama_options.as_ref().unwrap().model, "mistral:7b");
    assert_eq!(c.llm, "ollama");
    assert_eq!(c.version, "0.1.0");
}

#[test]
fn set_llm_key() {
    let mut c = BottConfig::default();
    assert!(c.set_key("llm", "openai").is_ok());
    assert_eq!(c.llm, "openai");
    assert_eq!(c.ollama_options.unwrap().model, "codellama:7b-instruct");
}

#[test]
fn unsupported_key_is_rejected_unchanged() {
    let mut c = BottConfig::default();
    assert_eq!(c.set_key("bogus:key", "x"), Err(BottError::ConfigUnsupportedKey));
    assert_eq!(c, BottConfig::default());
    assert_eq!(c.get_key("bogus:key"), Err(BottError::ConfigUnsupportedKey));
    assert_eq!(c.delete_key("bogus:key"), Err(BottError::ConfigUnsupportedKey));
}

#[test]
fn keychain_reports_absence_as_failure_or_hands_out_a_secret() {
    // What the platform store holds depends on the machine; the contract
    // only promises the shape of the outcome.
    match Keychain::load("openai") {
        Ok(kc) => match kc.get("api_key") {
            Ok(p) => assert!(p.is_some()),
            Err(e) => assert!(matches!(e, BottError::KeychainLoad | BottError::KeychainGet)),
        },
        Err(e) => assert_eq!(e, BottError::KeychainLoad),
    }
}

#[test]
fn get_and_delete_document_keys() {
    let mut c = BottConfig::default();
    assert_eq!(c.get_key("llm"), Ok(Some("ollama".to_string())));
    assert_eq!(c.get_key("ollama:model"), Ok(Some("codellama:7b-instruct".to_string())));
    assert!(c.delete_key("ollama:model").is_ok());
    assert!(c.ollama_options.is_none());
    assert_eq!(c.get_key("ollama:model"), Ok(None));
    // The active backend cannot be removed.
    assert_eq!(c.delete_key("llm"), Err(BottError::ConfigUnsupportedKey));
    assert_eq!(c.llm, "ollama");
}
