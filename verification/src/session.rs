//! A chat session, turn by turn: each line of input is interpreted against
//! the transcript, and each outcome of an exchange is folded back into it.

use vstd::prelude::*;
use crate::exchange::{text_view, ExchangeError};
use crate::interact::{action_for, command_text, history_after, Action};
use crate::oai::{
    assistant_message, create_oai_request, model_view, request_for, user_message, views,
    MessageView, OAIMessage, OAIRequest, RequestView,
};
use crate::transcript::{classify, Transcript};

verus! {

/// The generation parameters of a session. `temperature` holds the bit
/// pattern of a single-precision number. An absent parameter is sent as zero,
/// or as the empty model name.
#[derive(Debug)]
pub struct GenerationParameters {
    pub max_tokens: Option<u32>,
    pub model: Option<String>,
    pub temperature: Option<u32>,
}

impl GenerationParameters {
    /// The parameters used where the user chooses none: at most 300 tokens,
    /// the model `gpt-3.5-turbo`, and a temperature of 0.2, given as the bit
    /// pattern of that single-precision number.
    pub fn standard() -> (parameters: GenerationParameters)
        ensures
            parameters.max_tokens == Some(300u32),
            model_view(parameters.model) == Some("gpt-3.5-turbo"@),
            parameters.temperature == Some(0x3E4C_CCCDu32),
    {
        GenerationParameters {
            max_tokens: Some(300),
            model: Some("gpt-3.5-turbo".to_owned()),
            temperature: Some(0x3E4C_CCCD),
        }
    }
}

/// What a line of input led to: the action it was classified as and, where
/// it is to be sent, the request to send.
#[derive(Debug)]
pub struct Turn {
    pub action: Action,
    pub request: Option<OAIRequest>,
}

/// The transcript after a line of input was taken in: a command has its
/// effect, and ordinary text is appended, as typed, as a user message.
pub open spec fn turn_history(history: Seq<MessageView>, raw: Seq<char>) -> Seq<MessageView> {
    let action = action_for(command_text(raw), history.len());
    if action == Action::Pass {
        history.push(user_message(raw))
    } else {
        history_after(action, history)
    }
}

/// The transcript after the outcome of an exchange was taken in: a reply is
/// appended as an assistant message, a failure changes nothing.
pub open spec fn reply_history(
    history: Seq<MessageView>,
    outcome: Result<Seq<char>, ExchangeError>,
) -> Seq<MessageView> {
    match outcome {
        Ok(text) => history.push(assistant_message(text)),
        Err(_) => history,
    }
}

/// The transcript after one whole turn whose exchange, if there was one,
/// succeeded with `reply`.
pub open spec fn completed_turn(
    history: Seq<MessageView>,
    raw: Seq<char>,
    reply: Seq<char>,
) -> Seq<MessageView> {
    if action_for(command_text(raw), history.len()) == Action::Pass {
        reply_history(turn_history(history, raw), Ok(reply))
    } else {
        turn_history(history, raw)
    }
}

/// The transcript after a run of whole turns, each given as the line of input
/// and the reply that its exchange brought.
pub open spec fn completed_turns(
    start: Seq<MessageView>,
    turns: Seq<(Seq<char>, Seq<char>)>,
) -> Seq<MessageView>
    decreases turns.len(),
{
    if turns.len() == 0 {
        start
    } else {
        completed_turn(completed_turns(start, turns.drop_last()), turns.last().0, turns.last().1)
    }
}

/// A session that starts empty and sees only ordinary text, each line
/// answered by a successful exchange, holds two messages per turn: the user's
/// line and then the assistant's reply, turn after turn.
pub proof fn lemma_exchanges_alternate(turns: Seq<(Seq<char>, Seq<char>)>)
    requires
        forall|i: int|
            0 <= i < turns.len() ==> action_for(
                command_text(#[trigger] turns[i].0),
                (2 * i) as nat,
            ) == Action::Pass,
    ensures
        completed_turns(Seq::empty(), turns).len() == 2 * turns.len(),
        forall|i: int|
            0 <= i < turns.len() ==> {
                &&& (#[trigger] completed_turns(Seq::empty(), turns)[2 * i]) == user_message(
                    turns[i].0,
                )
                &&& completed_turns(Seq::empty(), turns)[2 * i + 1] == assistant_message(
                    turns[i].1,
                )
            },
    decreases turns.len(),
{
    if turns.len() > 0 {
        let earlier = turns.drop_last();
        let k = earlier.len() as int;
        assert forall|i: int| 0 <= i < earlier.len() implies action_for(
            command_text(#[trigger] earlier[i].0),
            (2 * i) as nat,
        ) == Action::Pass by {
            assert(earlier[i] == turns[i]);
        }
        lemma_exchanges_alternate(earlier);
        let before = completed_turns(Seq::empty(), earlier);
        let after = completed_turns(Seq::empty(), turns);
        assert(turns.last() == turns[k]);
        assert(action_for(command_text(turns[k].0), (2 * k) as nat) == Action::Pass);
        assert(after == before.push(user_message(turns[k].0)).push(
            assistant_message(turns[k].1),
        ));
        assert forall|i: int| 0 <= i < turns.len() implies {
            &&& (#[trigger] after[2 * i]) == user_message(turns[i].0)
            &&& after[2 * i + 1] == assistant_message(turns[i].1)
        } by {
            if i < k {
                assert(earlier[i] == turns[i]);
                assert(after[2 * i] == before[2 * i]);
                assert(after[2 * i + 1] == before[2 * i + 1]);
            }
        }
    }
}

/// A transcript made of whole exchanges: an even number of messages, the
/// user's at the even places and the assistant's at the odd ones.
pub open spec fn paired(history: Seq<MessageView>) -> bool {
    &&& history.len() % 2 == 0
    &&& forall|i: int|
        0 <= i < history.len() ==> (#[trigger] history[i]).role == if i % 2 == 0 {
            "user"@
        } else {
            "assistant"@
        }
}

/// A whole turn, whatever its input, leaves a transcript of whole exchanges
/// as one: a command removes nothing but whole exchanges from the end, and a
/// successful exchange adds one.
pub proof fn lemma_completed_turn_keeps_pairs(
    history: Seq<MessageView>,
    raw: Seq<char>,
    reply: Seq<char>,
)
    requires
        paired(history),
    ensures
        paired(completed_turn(history, raw, reply)),
{
}

/// Starting from nothing, any run of whole turns leaves a transcript of whole
/// exchanges.
pub proof fn lemma_completed_turns_paired(turns: Seq<(Seq<char>, Seq<char>)>)
    ensures
        paired(completed_turns(Seq::empty(), turns)),
    decreases turns.len(),
{
    if turns.len() > 0 {
        lemma_completed_turns_paired(turns.drop_last());
        lemma_completed_turn_keeps_pairs(
            completed_turns(Seq::empty(), turns.drop_last()),
            turns.last().0,
            turns.last().1,
        );
    }
}

/// Only `clear` and `undo` shorten the transcript: taking in any other line
/// keeps every message in its place, and so does taking in the outcome of an
/// exchange. What is removed is removed from the end, and what is added is
/// added at the end.
pub proof fn lemma_only_commands_shrink(
    history: Seq<MessageView>,
    raw: Seq<char>,
    outcome: Result<Seq<char>, ExchangeError>,
)
    ensures
        reply_history(history, outcome).len() >= history.len(),
        reply_history(history, outcome).take(history.len() as int) == history,
        turn_history(history, raw).len() < history.len() ==> {
            ||| action_for(command_text(raw), history.len()) == Action::Cleared
            ||| action_for(command_text(raw), history.len()) == Action::Undone
        },
        turn_history(history, raw).len() <= history.len() ==> turn_history(history, raw)
            == history.take(turn_history(history, raw).len() as int),
        turn_history(history, raw).len() > history.len() ==> turn_history(history, raw).take(
            history.len() as int,
        ) == history,
{
    assert(reply_history(history, outcome).take(history.len() as int) =~= history);
    let after = turn_history(history, raw);
    if after.len() <= history.len() {
        assert(after =~= history.take(after.len() as int));
    } else {
        assert(after.take(history.len() as int) =~= history);
    }
}

/// One chat session: its transcript and the parameters its requests carry.
pub struct Session {
    transcript: Transcript,
    parameters: GenerationParameters,
}

impl Session {
    /// The messages of the session so far.
    pub closed spec fn history(&self) -> Seq<MessageView> {
        self.transcript@
    }

    /// The maximum number of tokens asked for, if set.
    pub closed spec fn max_tokens(&self) -> Option<u32> {
        self.parameters.max_tokens
    }

    /// The model asked for, if set.
    pub closed spec fn model(&self) -> Option<Seq<char>> {
        model_view(self.parameters.model)
    }

    /// The sampling temperature asked for, if set.
    pub closed spec fn temperature(&self) -> Option<u32> {
        self.parameters.temperature
    }

    /// Whether two sessions carry the same parameters.
    pub open spec fn same_parameters(&self, other: &Session) -> bool {
        &&& self.max_tokens() == other.max_tokens()
        &&& self.model() == other.model()
        &&& self.temperature() == other.temperature()
    }

    /// The request that this session would send for its current transcript.
    pub open spec fn pending_request(&self) -> RequestView {
        request_for(self.history(), self.max_tokens(), self.model(), self.temperature())
    }

    /// A session with an empty transcript.
    pub fn new(parameters: GenerationParameters) -> (session: Session)
        ensures
            session.history() == Seq::<MessageView>::empty(),
            session.max_tokens() == parameters.max_tokens,
            session.model() == model_view(parameters.model),
            session.temperature() == parameters.temperature,
    {
        Session { transcript: Transcript::new(), parameters }
    }

    /// The number of messages in the transcript.
    pub fn len(&self) -> (n: usize)
        ensures
            n == self.history().len(),
    {
        self.transcript.len()
    }

    /// A copy of the transcript's messages, in order.
    pub fn messages(&self) -> (copy: Vec<OAIMessage>)
        ensures
            views(copy@) == self.history(),
    {
        self.transcript.snapshot()
    }

    /// Takes in one line of input. A command is carried out on the
    /// transcript and nothing is to be sent. Ordinary text is appended, as
    /// typed, as a user message, and the turn carries the request to send: a
    /// snapshot of the transcript with that message at its end.
    pub fn begin_turn(&mut self, raw_input: &str) -> (turn: Turn)
        ensures
            turn.action == action_for(command_text(raw_input@), old(self).history().len()),
            final(self).history() == turn_history(old(self).history(), raw_input@),
            turn.action == Action::Pass ==> final(self).history() == old(self).history().push(
                user_message(raw_input@),
            ),
            turn.action == Action::Terminate ==> final(self).history() == old(self).history(),
            turn.action == Action::Cleared ==> final(self).history().len() == 0,
            turn.action == Action::Undone ==> final(self).history() == old(self).history().take(
                old(self).history().len() - 2,
            ),
            final(self).same_parameters(old(self)),
            match turn.request {
                Some(request) => turn.action == Action::Pass
                    && request@ == final(self).pending_request(),
                None => turn.action != Action::Pass,
            },
    {
        let action = classify(raw_input, &mut self.transcript);
        match action {
            Action::Pass => {
                self.transcript.append(OAIMessage::user(raw_input.to_owned()));
                let model = match &self.parameters.model {
                    Some(name) => Some(name.clone()),
                    None => None,
                };
                let request = self.transcript.build_request(
                    self.parameters.max_tokens,
                    model,
                    self.parameters.temperature,
                );
                Turn { action, request: Some(request) }
            },
            _ => Turn { action, request: None },
        }
    }

    /// Takes in the outcome of the exchange of a turn. A reply is appended as
    /// an assistant message; after a failure the transcript is as it was, the
    /// user message of the turn included.
    pub fn finish_turn(&mut self, outcome: &Result<String, ExchangeError>)
        ensures
            final(self).history() == reply_history(old(self).history(), text_view(*outcome)),
            match *outcome {
                Ok(text) => final(self).history() == old(self).history().push(
                    assistant_message(text@),
                ),
                Err(_) => final(self).history() == old(self).history(),
            },
            final(self).same_parameters(old(self)),
    {
        match outcome {
            Ok(text) => {
                self.transcript.append(OAIMessage::assistant(text.clone()));
            },
            Err(_) => {},
        }
    }
}

/// The request of a single question outside any session: the history is the
/// one user message that holds the question as given.
pub fn one_shot_request(
    user_input: String,
    max_tokens: Option<u32>,
    model: Option<String>,
    temperature: Option<u32>,
) -> (request: OAIRequest)
    ensures
        request@ == request_for(
            seq![user_message(user_input@)],
            max_tokens,
            model_view(model),
            temperature,
        ),
{
    let mut history: Vec<OAIMessage> = Vec::new();
    history.push(OAIMessage::user(user_input));
    assert(views(history@) =~= seq![user_message(user_input@)]);
    create_oai_request(&history, max_tokens, model, temperature)
}

} // verus!
