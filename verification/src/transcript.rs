//! The transcript: the ordered history of one conversation.

use vstd::prelude::*;
use crate::interact::{action_for, apply_command, command_text, history_after, normalize, Action};
use crate::oai::{
    copy_history, create_oai_request, model_view, request_for, views, MessageView, OAIMessage,
    OAIRequest,
};

verus! {

/// The messages of a session in the order in which they were spoken. Messages
/// are only ever appended at the end or removed from the end; a message that
/// stays is never changed or moved.
pub struct Transcript {
    messages: Vec<OAIMessage>,
}

impl View for Transcript {
    type V = Seq<MessageView>;

    closed spec fn view(&self) -> Seq<MessageView> {
        views(self.messages@)
    }
}

impl Transcript {
    /// The empty transcript with which a session starts.
    pub fn new() -> (transcript: Transcript)
        ensures
            transcript@ == Seq::<MessageView>::empty(),
    {
        let transcript = Transcript { messages: Vec::new() };
        assert(transcript@ =~= Seq::<MessageView>::empty());
        transcript
    }

    /// The number of messages held.
    pub fn len(&self) -> (n: usize)
        ensures
            n == self@.len(),
    {
        self.messages.len()
    }

    /// Whether no message is held.
    pub fn is_empty(&self) -> (empty: bool)
        ensures
            empty == (self@.len() == 0),
    {
        self.messages.len() == 0
    }

    /// Adds a message at the end.
    pub fn append(&mut self, message: OAIMessage)
        ensures
            final(self)@ == old(self)@.push(message@),
    {
        self.messages.push(message);
        assert(views(self.messages@) =~= views(old(self).messages@).push(message@));
    }

    /// Removes every message.
    pub fn clear(&mut self)
        ensures
            final(self)@ == Seq::<MessageView>::empty(),
    {
        self.messages.clear();
        assert(views(self.messages@) =~= Seq::<MessageView>::empty());
    }

    /// Removes the last `n` messages and reports success. Where fewer than `n`
    /// messages are held nothing is removed and the call reports failure.
    pub fn remove_last(&mut self, n: usize) -> (removed: bool)
        ensures
            removed == (n <= old(self)@.len()),
            removed ==> final(self)@ == old(self)@.take(old(self)@.len() - n),
            !removed ==> final(self)@ == old(self)@,
    {
        let len = self.messages.len();
        if n > len {
            return false;
        }
        self.messages.truncate(len - n);
        assert(views(self.messages@) =~= views(old(self).messages@).take(len - n));
        true
    }

    /// A copy of the messages, in order, that later changes to the transcript
    /// do not reach.
    pub fn snapshot(&self) -> (copy: Vec<OAIMessage>)
        ensures
            views(copy@) == self@,
    {
        copy_history(&self.messages)
    }

    /// Builds the request that sends this transcript with the given
    /// generation parameters. The request holds a copy of the messages; an
    /// absent parameter becomes zero, or the empty model name.
    pub fn build_request(
        &self,
        max_tokens: Option<u32>,
        model: Option<String>,
        temperature: Option<u32>,
    ) -> (request: OAIRequest)
        ensures
            request@ == request_for(self@, max_tokens, model_view(model), temperature),
    {
        create_oai_request(&self.messages, max_tokens, model, temperature)
    }
}

/// Interprets one line of raw input against a transcript. `exit` asks to end
/// the session, `clear` empties the transcript, `undo` removes the last two
/// messages where at least two are held, and anything else, an `undo` on a
/// shorter transcript included, is ordinary text that leaves the transcript as
/// it is. Case and surrounding white space do not matter.
pub fn classify(raw_input: &str, transcript: &mut Transcript) -> (action: Action)
    ensures
        action == action_for(command_text(raw_input@), old(transcript)@.len()),
        final(transcript)@ == history_after(action, old(transcript)@),
        command_text(raw_input@) == "exit"@ ==> action == Action::Terminate,
        command_text(raw_input@) == "clear"@ ==> action == Action::Cleared
            && final(transcript)@.len() == 0,
        command_text(raw_input@) == "undo"@ && old(transcript)@.len() >= 2 ==> action
            == Action::Undone && final(transcript)@ == old(transcript)@.take(
            old(transcript)@.len() - 2,
        ),
        command_text(raw_input@) == "undo"@ && old(transcript)@.len() < 2 ==> action
            == Action::Pass && final(transcript)@ == old(transcript)@,
{
    let command = normalize(raw_input);
    let action = apply_command(command.as_str(), &mut transcript.messages);
    assert(views(transcript.messages@) =~= history_after(
        action,
        views(old(transcript).messages@),
    ));
    action
}

} // verus!
