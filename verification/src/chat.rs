//! The plain chat: what of a conversation is sent, and the envelope in
//! which the answer goes back.

use vstd::prelude::*;
use crate::gateway::{failure_text, GatewayError};
use crate::message::{views, Message, MessageView};
use crate::text::concatenate;

verus! {

/// A message reduced to what the chat sends: its role and its content.
pub open spec fn reduced(message: MessageView) -> MessageView {
    MessageView { role: message.role, content: message.content, name: None, tool_call: None }
}

/// A conversation reduced to what the chat sends, message by message.
pub open spec fn reduced_all(conversation: Seq<MessageView>) -> Seq<MessageView> {
    Seq::new(conversation.len(), |i: int| reduced(conversation[i]))
}

/// The conversation that the chat sends for `conversation`.
pub fn chat_conversation(conversation: &Vec<Message>) -> (r: Vec<Message>)
    ensures
        views(r@) == reduced_all(views(conversation@)),
{
    let mut out: Vec<Message> = Vec::new();
    let mut i: usize = 0;
    while i < conversation.len()
        invariant
            i <= conversation.len(),
            out@.len() == i,
            forall|k: int| 0 <= k < i ==> (#[trigger] out@[k])@ == reduced(conversation@[k]@),
        decreases conversation.len() - i,
    {
        let content = match &conversation[i].content {
            Some(text) => Some(text.clone()),
            None => None,
        };
        out.push(Message { role: conversation[i].role, content, name: None, tool_call: None });
        i += 1;
    }
    assert(views(out@) =~= reduced_all(views(conversation@)));
    out
}

/// The answer of the chat, as it goes back to the caller.
#[derive(Debug, PartialEq, Eq)]
pub enum Envelope {
    /// The reply of the model.
    Content(String),
    /// Why there is none.
    Error(String),
}

/// The text of the error envelope for a failed completion.
pub open spec fn chat_error(error: GatewayError) -> Seq<char> {
    "Error calling DeepSeek API: "@ + failure_text(error)
}

/// The envelope for the outcome of the completion.
pub fn chat_envelope(outcome: Result<String, GatewayError>) -> (r: Envelope)
    ensures
        match outcome {
            Ok(text) => r == Envelope::Content(text),
            Err(error) => r matches Envelope::Error(e) && e@ == chat_error(error),
        },
{
    match outcome {
        Ok(text) => Envelope::Content(text),
        Err(error) => Envelope::Error(
            concatenate("Error calling DeepSeek API: ", error.describe().as_str()),
        ),
    }
}

/// The line that shows an envelope to a reader.
pub open spec fn shown(envelope: Envelope) -> Seq<char> {
    match envelope {
        Envelope::Content(text) => text@,
        Envelope::Error(cause) => "Error: "@ + cause@,
    }
}

/// The line that shows an envelope to a reader.
pub fn show(envelope: &Envelope) -> (r: String)
    ensures
        r@ == shown(*envelope),
{
    match envelope {
        Envelope::Content(text) => text.clone(),
        Envelope::Error(cause) => concatenate("Error: ", cause.as_str()),
    }
}

} // verus!
