//! Messages exchanged between client and server.
use vstd::prelude::*;

verus! {

/// Outcome of one generation, sent to the client once it ends.
pub struct GenerationResults {
    pub was_terminated: bool,
    pub full_generated_lines: Vec<String>,
    pub feed_prompt_dur_ms: u128,
    pub predict_dur_ms: u128,
    pub predict_tokens: usize,
}

/// One message of the protocol.
pub enum Message {
    /// client to server: start a generation from this prompt
    GeneratePrompt(String),
    /// client to server: ask for the lines committed so far
    RequestCurrentGeneratedLines,
    /// server to client: a generation has ended
    GenerationDone(GenerationResults),
    /// server to client: reply to a poll
    CurrentGeneratedLinesResponse(Vec<String>),
}

impl Message {
    pub open spec fn is_client_request_spec(&self) -> bool {
        *self is GeneratePrompt || *self is RequestCurrentGeneratedLines
    }

    /// Whether a client may send this message.
    pub fn is_client_request(&self) -> (r: bool)
        ensures
            r == self.is_client_request_spec(),
    {
        match self {
            Message::GeneratePrompt(_) => true,
            Message::RequestCurrentGeneratedLines => true,
            _ => false,
        }
    }
}

} // verus!
