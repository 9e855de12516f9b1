//! The settings document and its key routing. A flat key addresses either
//! the active backend (`llm`) or a backend option (`<backend>:<option>`).
//! Keys that name a secret are redirected to the secret store and never
//! touch the plain document. Persisting the document itself is the
//! caller's step; these methods only change the in-memory value.

use vstd::prelude::*;

use crate::errors::{BottError, BottResult};
use crate::keychain::Keychain;
use crate::textutil::str_eq;

verus! {

/// The non-secret options of the Ollama backend.
#[derive(Debug, Clone, PartialEq)]
pub struct OllamaOptions {
    pub model: String,
}

/// The non-secret options of the OpenAI backend.
#[derive(Debug, Clone, PartialEq)]
pub struct OpenaiOptions {
    pub model: String,
}

/// The settings document: the active backend and one options block per
/// backend.
#[derive(Debug, Clone, PartialEq)]
pub struct BottConfig {
    pub version: String,
    pub llm: String,
    pub ollama_options: Option<OllamaOptions>,
    pub openai_options: Option<OpenaiOptions>,
}

/// Everything but the `llm` field is the same in `pre` and `post`.
pub open spec fn same_but_llm(pre: BottConfig, post: BottConfig) -> bool {
    post.version == pre.version && post.ollama_options == pre.ollama_options
        && post.openai_options == pre.openai_options
}

/// Everything but the Ollama options is the same in `pre` and `post`.
pub open spec fn same_but_ollama_options(pre: BottConfig, post: BottConfig) -> bool {
    post.version == pre.version && post.llm == pre.llm && post.openai_options
        == pre.openai_options
}

/// Everything but the OpenAI options is the same in `pre` and `post`.
pub open spec fn same_but_openai_options(pre: BottConfig, post: BottConfig) -> bool {
    post.version == pre.version && post.llm == pre.llm && post.ollama_options
        == pre.ollama_options
}

impl Default for BottConfig {
    /// The settings a fresh installation starts from.
    fn default() -> (c: Self)
        ensures
            c.version@ == "0.1.0"@,
            c.llm@ == "ollama"@,
            c.ollama_options matches Some(o) && o.model@ == "codellama:7b-instruct"@,
            c.openai_options matches Some(o) && o.model@ == "gpt-4"@,
    {
        Self {
            version: String::from_str("0.1.0"),
            llm: String::from_str("ollama"),
            ollama_options: Some(OllamaOptions { model: String::from_str("codellama:7b-instruct") }),
            openai_options: Some(OpenaiOptions { model: String::from_str("gpt-4") }),
        }
    }
}

proof fn lemma_keys_distinct()
    ensures
        "llm"@ != "ollama:model"@,
        "llm"@ != "openai:model"@,
        "llm"@ != "openai:api_key"@,
        "ollama:model"@ != "openai:model"@,
        "ollama:model"@ != "openai:api_key"@,
        "openai:model"@ != "openai:api_key"@,
{
    reveal_strlit("llm");
    reveal_strlit("ollama:model");
    reveal_strlit("openai:model");
    reveal_strlit("openai:api_key");
    assert("llm"@.len() == 3);
    assert("ollama:model"@.len() == 12);
    assert("openai:model"@.len() == 12);
    assert("openai:api_key"@.len() == 14);
    assert("ollama:model"@[1] == 'l');
    assert("openai:model"@[1] == 'p');
}

impl BottConfig {
    /// `key` is one of the recognized settings keys.
    pub open spec fn recognized_key(key: Seq<char>) -> bool {
        key == "llm"@ || key == "ollama:model"@ || key == "openai:model"@
            || key == "openai:api_key"@
    }

    /// Routes `value` to the setting addressed by `key`. The secret key is
    /// handed to the secret store and leaves the plain document untouched;
    /// a key outside the closed set changes nothing and is rejected.
    pub fn set_key(&mut self, key: &str, value: &str) -> (r: BottResult<()>)
        ensures
            key@ == "llm"@ ==> r is Ok && final(self).llm@ == value@
                && same_but_llm(*old(self), *final(self)),
            key@ == "ollama:model"@ ==> r is Ok
                && (final(self).ollama_options matches Some(o) && o.model@ == value@)
                && same_but_ollama_options(*old(self), *final(self)),
            key@ == "openai:model"@ ==> r is Ok
                && (final(self).openai_options matches Some(o) && o.model@ == value@)
                && same_but_openai_options(*old(self), *final(self)),
            key@ == "openai:api_key"@ ==> *final(self) == *old(self)
                && (r matches Err(e) ==> e == BottError::KeychainLoad
                || e == BottError::KeychainSet),
            !Self::recognized_key(key@) ==> *final(self) == *old(self)
                && r == Err::<(), BottError>(BottError::ConfigUnsupportedKey),
    {
        proof {
            lemma_keys_distinct();
        }
        if str_eq(key, "llm") {
            self.llm = String::from_str(value);
            Ok(())
        } else if str_eq(key, "ollama:model") {
            self.ollama_options = Some(OllamaOptions { model: String::from_str(value) });
            Ok(())
        } else if str_eq(key, "openai:model") {
            self.openai_options = Some(OpenaiOptions { model: String::from_str(value) });
            Ok(())
        } else if str_eq(key, "openai:api_key") {
            match Keychain::load("openai") {
                Ok(keychain) => keychain.set("api_key", value),
                Err(e) => Err(e),
            }
        } else {
            Err(BottError::ConfigUnsupportedKey)
        }
    }

    /// Reads the setting addressed by `key`; the secret key is read from
    /// the secret store.
    pub fn get_key(&mut self, key: &str) -> (r: BottResult<Option<String>>)
        ensures
            *final(self) == *old(self),
            key@ == "llm"@ ==> (r matches Ok(p) && p matches Some(s) && s@ == old(self).llm@),
            key@ == "ollama:model"@ ==> match old(self).ollama_options {
                Some(o) => r matches Ok(p) && p matches Some(s) && s@ == o.model@,
                None => r == Ok::<Option<String>, BottError>(None),
            },
            key@ == "openai:model"@ ==> match old(self).openai_options {
                Some(o) => r matches Ok(p) && p matches Some(s) && s@ == o.model@,
                None => r == Ok::<Option<String>, BottError>(None),
            },
            key@ == "openai:api_key"@ ==> (r matches Ok(p) ==> p is Some)
                && (r matches Err(e) ==> e == BottError::KeychainLoad
                || e == BottError::KeychainGet),
            !Self::recognized_key(key@) ==> r == Err::<Option<String>, BottError>(
                BottError::ConfigUnsupportedKey,
            ),
    {
        proof {
            lemma_keys_distinct();
        }
        if str_eq(key, "llm") {
            Ok(Some(self.llm.clone()))
        } else if str_eq(key, "ollama:model") {
            match &self.ollama_options {
                Some(options) => Ok(Some(options.model.clone())),
                None => Ok(None),
            }
        } else if str_eq(key, "openai:model") {
            match &self.openai_options {
                Some(options) => Ok(Some(options.model.clone())),
                None => Ok(None),
            }
        } else if str_eq(key, "openai:api_key") {
            match Keychain::load("openai") {
                Ok(keychain) => keychain.get("api_key"),
                Err(e) => Err(e),
            }
        } else {
            Err(BottError::ConfigUnsupportedKey)
        }
    }

    /// Removes the setting addressed by `key`; the secret key is removed
    /// from the secret store, and the active backend cannot be removed.
    pub fn delete_key(&mut self, key: &str) -> (r: BottResult<()>)
        ensures
            key@ == "ollama:model"@ ==> r is Ok && final(self).ollama_options is None
                && same_but_ollama_options(*old(self), *final(self)),
            key@ == "openai:model"@ ==> r is Ok && final(self).openai_options is None
                && same_but_openai_options(*old(self), *final(self)),
            key@ == "openai:api_key"@ ==> *final(self) == *old(self)
                && (r matches Err(e) ==> e == BottError::KeychainLoad
                || e == BottError::KeychainDelete),
            key@ == "llm"@ || !Self::recognized_key(key@) ==> *final(self) == *old(self)
                && r == Err::<(), BottError>(BottError::ConfigUnsupportedKey),
    {
        proof {
            lemma_keys_distinct();
        }
        if str_eq(key, "ollama:model") {
            self.ollama_options = None;
            Ok(())
        } else if str_eq(key, "openai:model") {
            self.openai_options = None;
            Ok(())
        } else if str_eq(key, "openai:api_key") {
            match Keychain::load("openai") {
                Ok(keychain) => keychain.delete("api_key"),
                Err(e) => Err(e),
            }
        } else {
            Err(BottError::ConfigUnsupportedKey)
        }
    }
}

} // verus!
