//! The request that a trigger sends to the completion service.

use crate::settings::Settings;
use crate::supervisor::TriggerError;
use vstd::prelude::*;

verus! {

/// The clipboard could not be read.
#[derive(Clone, Copy, Debug, PartialEq, Eq, Structural)]
pub struct ClipboardError;

/// A request for a streamed completion: a single message in the user's role.
#[derive(Clone, Debug, PartialEq, Eq)]
pub struct CompletionRequest {
    /// Identifier of the model that is to answer.
    pub model: String,
    /// Content of the message.
    pub prompt: String,
}

/// Builds the request for a trigger from the clipboard as it was read.
///
/// The request names the configured model and carries the clipboard text,
/// unchanged, as its prompt. If the clipboard could not be read there is no
/// request and the trigger is to be dropped.
pub fn compose_request(settings: &Settings, clipboard: Result<String, ClipboardError>) -> (request:
    Result<CompletionRequest, TriggerError>)
    ensures
        match clipboard {
            Ok(text) => request matches Ok(built) && built.model@ == settings.model@
                && built.prompt@ == text@,
            Err(_) => request matches Err(error) && error == TriggerError::Clipboard,
        },
{
    match clipboard {
        Ok(text) => Ok(CompletionRequest { model: settings.model.clone(), prompt: text }),
        Err(_) => Err(TriggerError::Clipboard),
    }
}

} // verus!
