use vstd::prelude::*;

verus! {

/// One failed shell command and the error text it produced.
pub struct Invocation {
    pub failed_command: String,
    pub error_text: String,
}

/// What one fetch of a suggestion produced.
pub enum SuggestionOutcome {
    Suggestion { exact_command: String, explanation: String },
    Refusal { message: String },
    Error { detail: String },
}

/// The mathematical model of a `SuggestionOutcome`.
pub enum OutcomeModel {
    Suggestion { exact_command: Seq<char>, explanation: Seq<char> },
    Refusal { message: Seq<char> },
    Error { detail: Seq<char> },
}

impl View for SuggestionOutcome {
    type V = OutcomeModel;

    open spec fn view(&self) -> OutcomeModel {
        match self {
            SuggestionOutcome::Suggestion { exact_command, explanation } => OutcomeModel::Suggestion {
                exact_command: exact_command@,
                explanation: explanation@,
            },
            SuggestionOutcome::Refusal { message } => OutcomeModel::Refusal { message: message@ },
            SuggestionOutcome::Error { detail } => OutcomeModel::Error { detail: detail@ },
        }
    }
}

impl SuggestionOutcome {
    /// The command to stage for the user, present only on a suggestion.
    pub fn staged_command(&self) -> (r: Option<String>)
        ensures
            match self@ {
                OutcomeModel::Suggestion { exact_command, .. } => r is Some && r->0@
                    == exact_command,
                _ => r is None,
            },
    {
        match self {
            SuggestionOutcome::Suggestion { exact_command, .. } => Some(exact_command.clone()),
            _ => None,
        }
    }
}

/// The message of one choice in the provider's reply.
pub struct ReplyMessage {
    pub content: Option<String>,
    pub refusal: Option<String>,
}

/// The provider's reply envelope, as far as the classification reads it.
pub struct ProviderReply {
    pub choices: Vec<ReplyMessage>,
}

pub open spec fn opt_view(o: Option<String>) -> Option<Seq<char>> {
    match o {
        Some(s) => Some(s@),
        None => None,
    }
}

} // verus!
