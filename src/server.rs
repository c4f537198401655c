//! Decisions of the network side: admission of requests, replies to polls,
//! the tracked client, and the relay of finished results.
use vstd::prelude::*;
use message_io::network::Endpoint;
use crate::state::{admit_spec, end_spec, GenerationState};
use crate::wire::{GenerationResults, Message};

verus! {

/// message_io's Endpoint, the address of a connected client: carried
/// through, never looked into.
#[verifier::external_type_specification]
#[verifier::external_body]
pub struct ExEndpoint(Endpoint);

/// What the network side does after a client message.
pub enum ServerAction {
    /// nothing: a busy request or an unexpected message
    Ignore,
    /// hand this prompt to the generation worker
    StartGeneration(String),
    /// send this message back to the sender
    Reply(Message),
}

/// Handles one decoded client message against the shared state.
pub fn dispatch_message(gs: &mut GenerationState, msg: Message) -> (r: ServerAction)
    ensures
        msg is GeneratePrompt ==> final(gs).model() == admit_spec(old(gs).model()) && (if old(
            gs,
        ).is_generating {
            r is Ignore
        } else {
            r is StartGeneration && r->StartGeneration_0@ == msg->GeneratePrompt_0@
        }),
        msg is RequestCurrentGeneratedLines ==> final(gs).model() == old(gs).model() && r is Reply
            && r->Reply_0 is CurrentGeneratedLinesResponse
            && r->Reply_0->CurrentGeneratedLinesResponse_0.deep_view() == old(gs).model().lines,
        !msg.is_client_request_spec() ==> final(gs).model() == old(gs).model() && r is Ignore,
{
    match msg {
        Message::GeneratePrompt(prompt) => {
            if gs.try_admit() {
                ServerAction::StartGeneration(prompt)
            } else {
                ServerAction::Ignore
            }
        },
        Message::RequestCurrentGeneratedLines => {
            let lines = gs.snapshot_lines();
            ServerAction::Reply(Message::CurrentGeneratedLinesResponse(lines))
        },
        _ => ServerAction::Ignore,
    }
}

/// The worker finished: nothing runs any more, the lines are dropped, and
/// the results go to the tracked client if there is one.
pub fn relay_result(gs: &mut GenerationState, has_client: bool, results: GenerationResults) -> (r:
    Option<Message>)
    ensures
        final(gs).model() == end_spec(old(gs).model()),
        has_client ==> r is Some && r->Some_0 is GenerationDone && r->Some_0->GenerationDone_0
            == results,
        !has_client ==> r is None,
{
    gs.end_generation();
    if has_client {
        Some(Message::GenerationDone(results))
    } else {
        None
    }
}

/// The single client endpoint that the server answers.
pub struct ClientSlot {
    pub client: Option<Endpoint>,
}

impl ClientSlot {
    pub fn new() -> (r: ClientSlot)
        ensures
            r.client is None,
    {
        ClientSlot { client: None }
    }

    /// A new connection replaces whatever client was tracked.
    pub fn accept(&mut self, e: Endpoint)
        ensures
            final(self).client == Some(e),
    {
        self.client = Some(e);
    }

    pub fn current(&self) -> (r: Option<Endpoint>)
        ensures
            r == self.client,
    {
        self.client
    }
}

} // verus!
