//! Session commands: the reserved inputs that steer a chat session instead of
//! being sent to the model.

use vstd::prelude::*;
use crate::oai::OAIMessage;

verus! {

/// What a line of input asks the session to do.
#[derive(Debug, Clone, Copy, PartialEq, Eq, Structural)]
pub enum Action {
    /// End the session; nothing is sent.
    Terminate,
    /// The history was emptied; nothing is sent this turn.
    Cleared,
    /// The last user message and its reply were removed; nothing is sent.
    Undone,
    /// Ordinary text: it is to be sent as a user message.
    Pass,
}

/// The text that `str::trim` returns for `text`.
pub uninterp spec fn trimmed(text: Seq<char>) -> Seq<char>;

/// The text that `str::to_lowercase` returns for `text`.
pub uninterp spec fn lowercased(text: Seq<char>) -> Seq<char>;

/// Calls `str::trim`, which removes leading and trailing Unicode white space.
/// The contract only names the result: it is a function of the text alone.
#[verifier::external_body]
fn trim_text(text: &str) -> (out: &str)
    ensures
        out@ == trimmed(text@),
{
    text.trim()
}

/// Calls `str::to_lowercase`, which maps the text to its Unicode lowercase
/// form. The contract only names the result: it is a function of the text
/// alone.
#[verifier::external_body]
fn lowercase_text(text: &str) -> (out: String)
    ensures
        out@ == lowercased(text@),
{
    text.to_lowercase()
}

/// The normal form in which input is compared with the command words:
/// surrounding white space removed, then folded to lowercase.
pub open spec fn command_text(raw: Seq<char>) -> Seq<char> {
    lowercased(trimmed(raw))
}

/// The action that the normalized text `command` selects when the history
/// holds `len` messages. `undo` is a command only where there are at least two
/// messages to remove; otherwise it is ordinary text.
pub open spec fn action_for(command: Seq<char>, len: nat) -> Action {
    if command == "exit"@ {
        Action::Terminate
    } else if command == "clear"@ {
        Action::Cleared
    } else if command == "undo"@ && len >= 2 {
        Action::Undone
    } else {
        Action::Pass
    }
}

/// The history that an action leaves behind.
pub open spec fn history_after<T>(action: Action, history: Seq<T>) -> Seq<T> {
    match action {
        Action::Cleared => Seq::empty(),
        Action::Undone => history.subrange(0, history.len() - 2),
        Action::Terminate | Action::Pass => history,
    }
}

/// The numeric code under which an action is reported: 1 ends the session,
/// 2 skips sending for this turn, 0 sends the input.
pub open spec fn action_code(action: Action) -> u8 {
    match action {
        Action::Terminate => 1,
        Action::Cleared | Action::Undone => 2,
        Action::Pass => 0,
    }
}

/// The line shown to the user after a command was carried out.
pub open spec fn notice_text(action: Action) -> Option<Seq<char>> {
    match action {
        Action::Terminate => Some("Exiting the program."@),
        Action::Cleared => Some("Chat history cleared."@),
        Action::Undone => Some("Undone last user input and assistant response."@),
        Action::Pass => None,
    }
}

impl Action {
    /// The numeric code of this action.
    pub fn code(&self) -> (code: u8)
        ensures
            code == action_code(*self),
    {
        match self {
            Action::Terminate => 1,
            Action::Cleared => 2,
            Action::Undone => 2,
            Action::Pass => 0,
        }
    }

    /// The line to show after this action, if it was a command.
    pub fn notice(&self) -> (line: Option<&'static str>)
        ensures
            match line {
                Some(text) => notice_text(*self) == Some(text@),
                None => notice_text(*self).is_none(),
            },
    {
        match self {
            Action::Terminate => Some("Exiting the program."),
            Action::Cleared => Some("Chat history cleared."),
            Action::Undone => Some("Undone last user input and assistant response."),
            Action::Pass => None,
        }
    }
}

/// Whether two texts are the same sequence of characters.
fn same_text(left: &str, right: &str) -> (same: bool)
    ensures
        same == (left@ == right@),
{
    let a: String = left.to_owned();
    let b: String = right.to_owned();
    a == b
}

/// Brings raw input into the form in which commands are recognised.
pub fn normalize(raw: &str) -> (command: String)
    ensures
        command@ == command_text(raw@),
{
    lowercase_text(trim_text(raw))
}

/// The three command words are different texts, so each selects its own
/// action: `exit` always ends the session, `clear` always empties the history,
/// and `undo` removes the last two messages exactly where there are two.
pub proof fn lemma_command_words(len: nat)
    ensures
        action_for("exit"@, len) == Action::Terminate,
        action_for("clear"@, len) == Action::Cleared,
        len >= 2 ==> action_for("undo"@, len) == Action::Undone,
        len < 2 ==> action_for("undo"@, len) == Action::Pass,
{
    reveal_strlit("exit");
    reveal_strlit("clear");
    reveal_strlit("undo");
    assert("exit"@.len() == 4 && "clear"@.len() == 5 && "undo"@.len() == 4);
    assert("exit"@[0] == 'e' && "undo"@[0] == 'u');
}

/// Carries out the command that the already normalized text `command` names,
/// on the given history. The messages that stay are the same messages in the
/// same order: only the tail is ever removed.
pub fn apply_command<T>(command: &str, chat_history: &mut Vec<T>) -> (action: Action)
    ensures
        action == action_for(command@, old(chat_history)@.len()),
        final(chat_history)@ == history_after(action, old(chat_history)@),
        command@ == "exit"@ ==> action == Action::Terminate,
        command@ == "clear"@ ==> action == Action::Cleared && final(chat_history)@.len() == 0,
        command@ == "undo"@ && old(chat_history)@.len() >= 2 ==> action == Action::Undone
            && final(chat_history)@ == old(chat_history)@.take(old(chat_history)@.len() - 2),
        command@ == "undo"@ && old(chat_history)@.len() < 2 ==> action == Action::Pass
            && final(chat_history)@ == old(chat_history)@,
        final(chat_history)@.len() <= old(chat_history)@.len(),
        final(chat_history)@ == old(chat_history)@.take(final(chat_history)@.len() as int),
{
    proof {
        lemma_command_words(old(chat_history)@.len());
    }
    if same_text(command, "exit") {
        Action::Terminate
    } else if same_text(command, "clear") {
        chat_history.clear();
        Action::Cleared
    } else if same_text(command, "undo") && chat_history.len() >= 2 {
        chat_history.pop();
        chat_history.pop();
        assert(chat_history@ =~= old(chat_history)@.subrange(0, old(chat_history)@.len() - 2));
        Action::Undone
    } else {
        Action::Pass
    }
}

/// Interprets one line of raw input against the history and reports the
/// outcome as a code: 1 for `exit`, 2 for `clear` and for an `undo` that
/// removed the last two messages, 0 for input that is to be sent. Commands
/// are recognised regardless of case and of surrounding white space.
pub fn special_commands(user_input: &str, chat_history: &mut Vec<OAIMessage>) -> (code: u8)
    ensures
        code == action_code(action_for(command_text(user_input@), old(chat_history)@.len())),
        final(chat_history)@ == history_after(
            action_for(command_text(user_input@), old(chat_history)@.len()),
            old(chat_history)@,
        ),
        command_text(user_input@) == "exit"@ ==> code == 1,
        command_text(user_input@) == "clear"@ ==> code == 2 && final(chat_history)@.len() == 0,
        command_text(user_input@) == "undo"@ && old(chat_history)@.len() >= 2 ==> code == 2
            && final(chat_history)@ == old(chat_history)@.take(old(chat_history)@.len() - 2),
        command_text(user_input@) == "undo"@ && old(chat_history)@.len() < 2 ==> code == 0
            && final(chat_history)@ == old(chat_history)@,
{
    let command = normalize(user_input);
    let action = apply_command(command.as_str(), chat_history);
    action.code()
}

} // verus!
