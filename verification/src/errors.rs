//! The error taxonomy shared by both backends: configuration errors,
//! secret-store errors, and one wrapper variant per backend so the caller
//! can format provider-specific diagnostics.

use vstd::prelude::*;

verus! {

/// Failures of the Ollama backend.
#[derive(Debug, PartialEq)]
pub enum BottOllamaError {
    /// The local server could not be reached.
    NotRunning,
    /// The server replied with a body that does not have the expected shape.
    InvalidResponse,
    /// The configured model is not in the server's tag listing; carries the
    /// configured model name so the caller can suggest pulling it.
    ModelUnavailable(String),
    /// A reply was received but no usable response could be taken from it.
    UnableToGetResponse,
    /// Any other failure, described by a message.
    UnknownError(String),
}

/// Failures of the OpenAI backend.
#[derive(Debug, PartialEq)]
pub enum BottOpenaiError {
    /// The request failed in transport or the reply could not be decoded.
    UnableToGetResponse,
}

/// Every failure the core can report. Each error is terminal for the
/// current invocation; nothing is retried.
#[derive(Debug, PartialEq)]
pub enum BottError {
    /// The settings path could not be resolved.
    ConfigPath,
    /// The settings document could not be read.
    ConfigLoad,
    /// The settings document could not be written.
    ConfigStore,
    /// A required setting is absent.
    ConfigMissingKey,
    /// The key is outside the closed set of recognized settings keys.
    ConfigUnsupportedKey,
    /// The secret store could not be opened.
    KeychainLoad,
    /// A secret could not be read.
    KeychainGet,
    /// A secret could not be written.
    KeychainSet,
    /// A secret could not be removed.
    KeychainDelete,
    /// A failure of the Ollama backend.
    Ollama(BottOllamaError),
    /// A failure of the OpenAI backend.
    Openai(BottOpenaiError),
}

pub type BottResult<T> = Result<T, BottError>;

impl BottError {
    /// The human-readable message for this error.
    pub open spec fn message_spec(&self) -> Seq<char> {
        match self {
            BottError::ConfigPath => "Unable to get config path"@,
            BottError::ConfigLoad => "Unable to get config"@,
            BottError::ConfigStore => "Unable to store config"@,
            BottError::ConfigMissingKey => "Required config key is not set"@,
            BottError::ConfigUnsupportedKey => "Unsupported config key"@,
            BottError::KeychainLoad => "Unable to load keychain"@,
            BottError::KeychainGet => "Unable to get key from keychain"@,
            BottError::KeychainSet => "Unable to set key in keychain"@,
            BottError::KeychainDelete => "Unable delete key from keychain"@,
            BottError::Ollama(BottOllamaError::NotRunning) => "Ollama not running?"@,
            BottError::Ollama(BottOllamaError::InvalidResponse) => "Ollama sent invalid response"@,
            BottError::Ollama(BottOllamaError::ModelUnavailable(s)) => "model not installed. Do `ollama pull "@ + s@ + "`"@,
            BottError::Ollama(BottOllamaError::UnableToGetResponse) => "Ollama sent invalid response"@,
            BottError::Ollama(BottOllamaError::UnknownError(s)) => "Unexpected error: "@ + s@,
            BottError::Openai(BottOpenaiError::UnableToGetResponse) => "Openai sent invalid response"@,
        }
    }

    /// Renders the human-readable message for this error.
    pub fn message(&self) -> (r: String)
        ensures
            r@ == self.message_spec(),
    {
        match self {
            BottError::ConfigPath => String::from_str("Unable to get config path"),
            BottError::ConfigLoad => String::from_str("Unable to get config"),
            BottError::ConfigStore => String::from_str("Unable to store config"),
            BottError::ConfigMissingKey => String::from_str("Required config key is not set"),
            BottError::ConfigUnsupportedKey => String::from_str("Unsupported config key"),
            BottError::KeychainLoad => String::from_str("Unable to load keychain"),
            BottError::KeychainGet => String::from_str("Unable to get key from keychain"),
            BottError::KeychainSet => String::from_str("Unable to set key in keychain"),
            BottError::KeychainDelete => String::from_str("Unable delete key from keychain"),
            BottError::Ollama(BottOllamaError::NotRunning) => String::from_str("Ollama not running?"),
            BottError::Ollama(BottOllamaError::InvalidResponse) => String::from_str("Ollama sent invalid response"),
            BottError::Ollama(BottOllamaError::ModelUnavailable(s)) => {
                let mut r = String::from_str("model not installed. Do `ollama pull ");
                r.append(s.as_str());
                r.append("`");
                r
            },
            BottError::Ollama(BottOllamaError::UnableToGetResponse) => String::from_str("Ollama sent invalid response"),
            BottError::Ollama(BottOllamaError::UnknownError(s)) => {
                let mut r = String::from_str("Unexpected error: ");
                r.append(s.as_str());
                r
            },
            BottError::Openai(BottOpenaiError::UnableToGetResponse) => String::from_str("Openai sent invalid response"),
        }
    }
}

} // verus!
