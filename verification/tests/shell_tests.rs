use planbot::message::{Message, Role};
use planbot::shell::{read_choice, read_command, same_ignoring_case, Choice, Command, Session};

#[test]
fn words_that_end_the_session() {
    for line in ["exit", "quit", "/q", "/quit", "EXIT\n", "  Quit  ", "/Q", "/QuIt\r\n"] {
        assert_eq!(read_command(line), Command::Quit, "{:?}", line);
    }
}

#[test]
fn blank_lines_ask_for_nothing() {
    for line in ["", "\n", "   \t\r\n"] {
        assert_eq!(read_command(line), Command::Nothing, "{:?}", line);
    }
}

#[test]
fn other_lines_are_said() {
    assert_eq!(read_command("  Build a todo app \n"), Command::Say("Build a todo app".to_string()));
    assert_eq!(read_command("exit now"), Command::Say("exit now".to_string()));
    assert_eq!(read_command("q"), Command::Say("q".to_string()));
}

#[test]
fn choices() {
    assert_eq!(read_choice("c\n"), Choice::Chat);
    assert_eq!(read_choice(" P "), Choice::Plan);
    assert_eq!(read_choice("b"), Choice::Back);
    assert_eq!(read_choice("R\r\n"), Choice::Reset);
    assert_eq!(read_choice(""), Choice::Unknown);
    assert_eq!(read_choice("plan"), Choice::Unknown);
    assert_eq!(read_choice("x"), Choice::Unknown);
}

#[test]
fn case_is_ignored_for_ascii_letters_only() {
    assert!(same_ignoring_case("Quit", "qUIT"));
    assert!(!same_ignoring_case("quit", "quits"));
    assert!(!same_ignoring_case("[", "{"));
    assert!(!same_ignoring_case("@", "`"));
    assert!(!same_ignoring_case("\u{c9}", "\u{e9}"));
    assert!(same_ignoring_case("", ""));
}

#[test]
fn the_session_keeps_the_conversation() {
    let mut session = Session::new();
    assert_eq!(session.conversation(), vec![]);
    session.say("hello".to_string());
    session.answer("hi".to_string());
    session.say("plan it".to_string());
    assert_eq!(
        session.conversation(),
        vec![
            Message::text(Role::User, "hello".to_string()),
            Message::text(Role::Assistant, "hi".to_string()),
            Message::text(Role::User, "plan it".to_string()),
        ]
    );
    session.back();
    assert_eq!(session.conversation().len(), 2);
    assert_eq!(session.conversation()[1], Message::text(Role::Assistant, "hi".to_string()));
    session.reset();
    assert_eq!(session.conversation(), vec![]);
    session.back();
    assert_eq!(session.conversation(), vec![]);
}
