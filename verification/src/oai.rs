//! Messages, requests and responses of the chat-completion wire schema.

use vstd::prelude::*;

verus! {

/// Mathematical value of one chat message: who spoke, and what was said.
pub struct MessageView {
    pub role: Seq<char>,
    pub content: Seq<char>,
}

/// Mathematical value of a completion request.
pub struct RequestView {
    pub messages: Seq<MessageView>,
    pub max_tokens: u32,
    pub model: Seq<char>,
    pub temperature: u32,
}

/// The message a user contributes with the text `content`.
pub open spec fn user_message(content: Seq<char>) -> MessageView {
    MessageView { role: "user"@, content }
}

/// The message the assistant contributes with the text `content`.
pub open spec fn assistant_message(content: Seq<char>) -> MessageView {
    MessageView { role: "assistant"@, content }
}

/// The values of a sequence of messages, in order.
pub open spec fn views(messages: Seq<OAIMessage>) -> Seq<MessageView> {
    Seq::new(messages.len(), |i: int| messages[i]@)
}

/// The request that a history and a set of optional generation parameters
/// stand for: an absent parameter is replaced by zero or by the empty text.
pub open spec fn request_for(
    history: Seq<MessageView>,
    max_tokens: Option<u32>,
    model: Option<Seq<char>>,
    temperature: Option<u32>,
) -> RequestView {
    RequestView {
        messages: history,
        max_tokens: match max_tokens {
            Some(n) => n,
            None => 0,
        },
        model: match model {
            Some(m) => m,
            None => Seq::empty(),
        },
        temperature: match temperature {
            Some(t) => t,
            None => 0,
        },
    }
}

/// The view of an optional model identifier.
pub open spec fn model_view(model: Option<String>) -> Option<Seq<char>> {
    match model {
        Some(m) => Some(m@),
        None => None,
    }
}

/// One message of a conversation, as it is sent to the endpoint.
#[derive(Debug)]
pub struct OAIMessage {
    pub role: String,
    pub content: String,
}

impl View for OAIMessage {
    type V = MessageView;

    open spec fn view(&self) -> MessageView {
        MessageView { role: self.role@, content: self.content@ }
    }
}

impl Clone for OAIMessage {
    fn clone(&self) -> (copy: Self)
        ensures
            copy@ == self@,
    {
        OAIMessage { role: self.role.clone(), content: self.content.clone() }
    }
}

impl PartialEq for OAIMessage {
    fn eq(&self, other: &Self) -> (same: bool)
    {
        self.role == other.role && self.content == other.content
    }
}

impl vstd::std_specs::cmp::PartialEqSpecImpl for OAIMessage {
    open spec fn obeys_eq_spec() -> bool {
        true
    }

    open spec fn eq_spec(&self, other: &Self) -> bool {
        self.role@ == other.role@ && self.content@ == other.content@
    }
}

impl OAIMessage {
    /// A message spoken by the user.
    pub fn user(content: String) -> (message: OAIMessage)
        ensures
            message@ == user_message(content@),
    {
        OAIMessage { role: "user".to_owned(), content }
    }

    /// A message spoken by the assistant.
    pub fn assistant(content: String) -> (message: OAIMessage)
        ensures
            message@ == assistant_message(content@),
    {
        OAIMessage { role: "assistant".to_owned(), content }
    }
}

/// The message inside one choice of a response.
#[derive(Debug)]
pub struct OAIResMessage {
    pub role: String,
    pub content: String,
}

/// One candidate completion of a response.
#[derive(Debug)]
pub struct OAIChoices {
    pub message: OAIResMessage,
    pub index: u8,
    pub logprobs: Option<u8>,
    pub finnish_reason: Option<String>,
}

/// The body of a successful response.
#[derive(Debug)]
pub struct OAIResponse {
    pub id: Option<String>,
    pub object: Option<String>,
    pub create: Option<u64>,
    pub model: Option<String>,
    pub choices: Vec<OAIChoices>,
}

/// A completion request. `temperature` holds the bit pattern of the
/// single-precision sampling temperature, so that the value is carried
/// through unchanged.
#[derive(Debug)]
pub struct OAIRequest {
    pub messages: Vec<OAIMessage>,
    pub max_tokens: u32,
    pub model: String,
    pub temperature: u32,
}

impl View for OAIRequest {
    type V = RequestView;

    open spec fn view(&self) -> RequestView {
        RequestView {
            messages: views(self.messages@),
            max_tokens: self.max_tokens,
            model: self.model@,
            temperature: self.temperature,
        }
    }
}

/// Copies a history message by message.
pub fn copy_history(chat_history: &Vec<OAIMessage>) -> (copy: Vec<OAIMessage>)
    ensures
        views(copy@) == views(chat_history@),
        copy@.len() == chat_history@.len(),
{
    let mut copy: Vec<OAIMessage> = Vec::new();
    let mut i: usize = 0;
    while i < chat_history.len()
        invariant
            i <= chat_history@.len(),
            copy@.len() == i,
            forall|k: int| 0 <= k < i ==> copy@[k]@ == chat_history@[k]@,
        decreases chat_history@.len() - i,
    {
        copy.push(chat_history[i].clone());
        i = i + 1;
    }
    assert(views(copy@) =~= views(chat_history@));
    copy
}

/// Builds the request for a turn from a snapshot of the history. The request
/// owns a copy of the messages, so later changes to the history leave it as
/// it was built. An absent parameter becomes zero, or the empty model name.
pub fn create_oai_request(
    chat_history: &Vec<OAIMessage>,
    max_tokens: Option<u32>,
    model: Option<String>,
    temperature: Option<u32>,
) -> (request: OAIRequest)
    ensures
        request@ == request_for(
            views(chat_history@),
            max_tokens,
            model_view(model),
            temperature,
        ),
{
    OAIRequest {
        messages: copy_history(chat_history),
        max_tokens: match max_tokens {
            Some(n) => n,
            None => 0,
        },
        model: match model {
            Some(m) => m,
            None => String::new(),
        },
        temperature: match temperature {
            Some(t) => t,
            None => 0,
        },
    }
}

} // verus!
