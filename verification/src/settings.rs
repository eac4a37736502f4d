//! Configuration of the assistant.

use vstd::prelude::*;

verus! {

/// Settings of the assistant, fixed once they are loaded.
#[derive(Clone, Debug, PartialEq, Eq)]
pub struct Settings {
    /// Credential presented to the completion service.
    pub api_key: String,
    /// Identifier of the completion model.
    pub model: String,
    /// Pause after each typed character, in milliseconds.
    pub delay: u64,
}

/// The delay, in milliseconds, of a configuration that names none.
pub const DEFAULT_DELAY_MS: u64 = 10;

/// The model of a configuration that names none.
pub open spec fn default_model_name() -> Seq<char> {
    "gpt-3.5-turbo"@
}

/// The model used when the configuration names none.
pub fn default_model() -> (model: String)
    ensures
        model@ == default_model_name(),
{
    "gpt-3.5-turbo".to_string()
}

/// The per-character delay used when the configuration names none.
pub fn default_delay() -> (delay: u64)
    ensures
        delay == DEFAULT_DELAY_MS,
{
    DEFAULT_DELAY_MS
}

impl Settings {
    /// Settings with the given credential, the default model and the default
    /// delay: what a configuration amounts to that names the credential only.
    pub fn with_defaults(api_key: String) -> (settings: Self)
        ensures
            settings.api_key@ == api_key@,
            settings.model@ == default_model_name(),
            settings.delay == DEFAULT_DELAY_MS,
    {
        Settings { api_key, model: default_model(), delay: default_delay() }
    }
}

} // verus!
