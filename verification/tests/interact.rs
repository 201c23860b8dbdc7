use gpt_cli::interact::{apply_command, normalize, special_commands, Action};
use gpt_cli::oai::OAIMessage;

fn message(role: &str, content: &str) -> OAIMessage {
    OAIMessage { role: String::from(role), content: String::from(content) }
}

#[test]
fn test_special_commands_exit() {
    let mut chat_history = Vec::new();
    assert_eq!(special_commands("exit", &mut chat_history), 1);
}

#[test]
fn test_special_commands_clear() {
    let mut chat_history = vec![OAIMessage {
        role: String::from("User"),
        content: String::from("Hello!"),
    }];
    assert_eq!(special_commands("clear", &mut chat_history), 2);
    assert_eq!(chat_history.len(), 0);
}

#[test]
fn test_special_commands_undo() {
    let mut chat_history = vec![
        OAIMessage {
            role: String::from("User"),
            content: String::from("Hello!"),
        },
        OAIMessage {
            role: String::from("Assistant"),
            content: String::from("Hi there!"),
        },
    ];
    assert_eq!(special_commands("undo", &mut chat_history), 2);
    assert_eq!(chat_history.len(), 0);
}

#[test]
fn test_special_commands_default() {
    let mut chat_history = Vec::new();
    assert_eq!(special_commands("other", &mut chat_history), 0);
}

#[test]
fn exit_is_recognised_in_any_case_and_spacing() {
    for input in ["EXIT", " exit ", "Exit", "exit\n", "\t eXiT \r\n"] {
        let mut chat_history = vec![message("user", "a")];
        assert_eq!(special_commands(input, &mut chat_history), 1);
        assert_eq!(chat_history, vec![message("user", "a")]);
    }
}

#[test]
fn clear_empties_a_history_of_any_length() {
    for len in 0..6 {
        let mut chat_history: Vec<OAIMessage> =
            (0..len).map(|i| message("user", &format!("m{}", i))).collect();
        assert_eq!(special_commands(" Clear\n", &mut chat_history), 2);
        assert!(chat_history.is_empty());
    }
}

#[test]
fn undo_removes_exactly_the_last_two() {
    let mut chat_history = vec![
        message("user", "one"),
        message("assistant", "two"),
        message("user", "three"),
        message("assistant", "four"),
        message("user", "five"),
    ];
    assert_eq!(special_commands("UNDO\n", &mut chat_history), 2);
    assert_eq!(
        chat_history,
        vec![message("user", "one"), message("assistant", "two"), message("user", "three")]
    );
}

#[test]
fn undo_on_a_short_history_is_ordinary_text() {
    let mut empty: Vec<OAIMessage> = Vec::new();
    assert_eq!(special_commands("undo", &mut empty), 0);
    assert!(empty.is_empty());

    let mut single = vec![message("user", "alone")];
    assert_eq!(special_commands("undo", &mut single), 0);
    assert_eq!(single, vec![message("user", "alone")]);
}

#[test]
fn near_commands_are_ordinary_text() {
    for input in ["exit now", "clear!", "undo undo", "", "   ", "e x i t"] {
        let mut chat_history = vec![message("user", "a"), message("assistant", "b")];
        assert_eq!(special_commands(input, &mut chat_history), 0);
        assert_eq!(chat_history.len(), 2);
    }
}

#[test]
fn normalize_trims_and_folds_case() {
    assert_eq!(normalize("  ExIt \n"), "exit");
    assert_eq!(normalize("Hello World"), "hello world");
    assert_eq!(normalize("\u{2003}ÄB\u{00A0}"), "äb");
    assert_eq!(normalize(""), "");
}

#[test]
fn apply_command_expects_normalized_text() {
    let mut chat_history = vec![message("user", "a"), message("assistant", "b")];
    assert_eq!(apply_command("EXIT", &mut chat_history), Action::Pass);
    assert_eq!(apply_command(" undo", &mut chat_history), Action::Pass);
    assert_eq!(chat_history.len(), 2);
    assert_eq!(apply_command("undo", &mut chat_history), Action::Undone);
    assert!(chat_history.is_empty());
    assert_eq!(apply_command("clear", &mut chat_history), Action::Cleared);
    assert_eq!(apply_command("exit", &mut chat_history), Action::Terminate);
}

#[test]
fn action_codes_and_notices() {
    assert_eq!(Action::Terminate.code(), 1);
    assert_eq!(Action::Cleared.code(), 2);
    assert_eq!(Action::Undone.code(), 2);
    assert_eq!(Action::Pass.code(), 0);
    assert_eq!(Action::Terminate.notice(), Some("Exiting the program."));
    assert_eq!(Action::Cleared.notice(), Some("Chat history cleared."));
    assert_eq!(
        Action::Undone.notice(),
        Some("Undone last user input and assistant response.")
    );
    assert_eq!(Action::Pass.notice(), None);
}
