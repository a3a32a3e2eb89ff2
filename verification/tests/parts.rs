use chat_tui::action::Action;
use chat_tui::key::{KeyCode, KeyEvent, KeyModifiers};
use chat_tui::keymap::{same_keys, KeyBindings, KeyMap};
use chat_tui::layout::{areas_from, screen_areas, Rect};
use chat_tui::request::{completion_action, draw_failure, parse_reply, RequestError};
use chat_tui::state::{AppState, ChatMessage, Mode};
use chat_tui::text::{join_lines, trim};

#[test]
fn trim_removes_white_space_at_both_ends() {
    assert_eq!(trim("  hello world \n"), "hello world");
    assert_eq!(trim("\t\r\n x \u{a0}\u{3000}"), "x");
    assert_eq!(trim("inner  space"), "inner  space");
    assert_eq!(trim("   "), "");
    assert_eq!(trim(""), "");
    assert_eq!(trim(" é "), "é");
    assert_eq!(trim("a"), "a");
    assert_eq!(trim(" \t\n\u{b}\u{c}\r hi \r\u{c}\u{b}\n\t "), "hi");
    assert_eq!(trim("\u{8}hi\u{e}\u{1f}"), "\u{8}hi\u{e}\u{1f}");
    assert_eq!(trim("\u{85}\u{2003}hi\u{2028}"), "hi");
    assert_eq!(trim("\u{200b}hi"), "\u{200b}hi");
}

#[test]
fn join_puts_line_feeds_between_lines() {
    assert_eq!(join_lines(&vec![]), "");
    assert_eq!(join_lines(&vec!["one".to_string()]), "one");
    assert_eq!(join_lines(&vec!["one".to_string(), "two".to_string()]), "one\ntwo");
    assert_eq!(join_lines(&vec![String::new(), String::new()]), "\n");
    assert_eq!(join_lines(&vec!["a".to_string(), String::new(), "b".to_string()]), "a\n\nb");
}

#[test]
fn action_copies_are_equal() {
    let actions = vec![
        Action::Tick,
        Action::Render,
        Action::Resize(3, 4),
        Action::Suspend,
        Action::Resume,
        Action::Quit,
        Action::ClearScreen,
        Action::Error("e".to_string()),
        Action::Help,
        Action::SendMessage("s".to_string()),
        Action::MessageReceived("m".to_string()),
        Action::FocusInput,
        Action::FocusChat,
        Action::ShowDialog("d".to_string()),
        Action::HideDialog,
        Action::ShowSystemPromptDialog,
        Action::SetSystemPrompt("p".to_string()),
    ];
    for action in &actions {
        assert_eq!(&action.duplicate(), action);
        assert_eq!(&action.clone(), action);
    }
    assert_ne!(Action::Error("a".to_string()), Action::Error("b".to_string()));
    assert_ne!(Action::SendMessage("a".to_string()), Action::MessageReceived("a".to_string()));
}

#[test]
fn state_starts_empty_and_applies_actions() {
    let mut state = AppState::default();
    assert!(state.chat_history.is_empty());
    assert!(!state.is_loading);
    assert_eq!(state.system_prompt, "");
    assert_eq!(Mode::default(), Mode::Home);
    assert_eq!(ChatMessage::default(), ChatMessage { role: String::new(), content: String::new() });
    assert!(state.apply(&Action::SendMessage("q".to_string())));
    assert!(state.is_loading);
    assert!(!state.apply(&Action::Tick));
    assert!(!state.apply(&Action::Quit));
    assert!(state.apply(&Action::SetSystemPrompt("p".to_string())));
    assert!(state.is_loading);
    assert!(state.apply(&Action::Error("late".to_string())));
    assert!(!state.is_loading);
    assert_eq!(
        state.chat_history,
        vec![ChatMessage::user("q".to_string()), ChatMessage::system("Error: late".to_string())]
    );
    assert_eq!(state.snapshot(), state);
    assert_eq!(ChatMessage::assistant("a".to_string()).role, "assistant");
    assert_eq!(ChatMessage::user("a".to_string()).duplicate(), ChatMessage::user("a".to_string()));
    assert_eq!(
        state.request_messages(),
        vec![
            ChatMessage::system("p".to_string()),
            ChatMessage::user("q".to_string()),
            ChatMessage::system("Error: late".to_string()),
        ]
    );
}

#[test]
fn reply_is_read_from_the_first_choice() {
    let response = "{\"id\":\"x\",\"choices\":[{\"message\":{\"role\":\"assistant\",\"content\":\"Hi there\"}},{\"message\":{\"content\":\"second\"}}]}";
    assert_eq!(parse_reply(response), Ok("Hi there".to_string()));
    let response = "{\"choices\":[{\"message\":{\"content\":\"line\\nbreak \\u00e9\"}}]}";
    assert_eq!(parse_reply(response), Ok("line\nbreak é".to_string()));
}

#[test]
fn reply_without_content_is_a_missing_field() {
    for response in [
        "{}",
        "[]",
        "null",
        "\"text\"",
        "{\"choices\":[]}",
        "{\"choices\":{\"0\":{\"message\":{\"content\":\"x\"}}}}",
        "{\"choices\":[{}]}",
        "{\"choices\":[{\"message\":{}}]}",
        "{\"choices\":[{\"message\":{\"content\":null}}]}",
        "{\"choices\":[{\"message\":{\"content\":7}}]}",
        "{\"choices\":[{\"message\":\"content\"}]}",
        "{\"error\":{\"message\":\"no credits\"}}",
    ] {
        assert_eq!(parse_reply(response), Err(RequestError::MissingField), "{}", response);
    }
}

#[test]
fn reply_that_is_no_json_is_malformed() {
    for response in ["", "not json", "{\"choices\":", "{\"a\":1}}"] {
        assert!(matches!(parse_reply(response), Err(RequestError::Malformed(_))), "{}", response);
    }
    assert_eq!(
        parse_reply("not json"),
        Err(RequestError::Malformed("expected ident at line 1 column 2".to_string()))
    );
    assert_eq!(
        parse_reply(""),
        Err(RequestError::Malformed("EOF while parsing a value at line 1 column 0".to_string()))
    );
}

#[test]
fn every_failure_has_its_report() {
    assert_eq!(
        RequestError::MissingCredential.message(),
        "OPENROUTER_API_KEY environment variable not set"
    );
    assert_eq!(RequestError::Transport("timed out".to_string()).message(), "timed out");
    assert_eq!(RequestError::Malformed("bad".to_string()).message(), "bad");
    assert_eq!(RequestError::MissingField.message(), "response holds no message content");
}

#[test]
fn exchange_ends_in_one_action() {
    assert_eq!(
        completion_action(Ok("Hi".to_string())),
        Action::MessageReceived("Hi".to_string())
    );
    assert_eq!(
        completion_action(Err(RequestError::MissingCredential)),
        Action::Error("API Error: OPENROUTER_API_KEY environment variable not set".to_string())
    );
    assert_eq!(
        completion_action(parse_reply("{}")),
        Action::Error("API Error: response holds no message content".to_string())
    );
    assert_eq!(
        completion_action(parse_reply("{\"choices\":[{\"message\":{\"content\":\"ok\"}}]}")),
        Action::MessageReceived("ok".to_string())
    );
    assert_eq!(draw_failure("no room"), Action::Error("Failed to draw: no room".to_string()));
}

#[test]
fn key_sequences_compare_by_their_keys() {
    let a = KeyEvent::new(KeyCode::Char('a'), KeyModifiers::none());
    let b = KeyEvent::new(KeyCode::Char('a'), KeyModifiers::control());
    assert!(same_keys(&vec![a, b], &vec![a, b]));
    assert!(!same_keys(&vec![a, b], &vec![b, a]));
    assert!(!same_keys(&vec![a], &vec![a, a]));
    assert!(same_keys(&vec![], &vec![]));
}

#[test]
fn key_map_binds_each_sequence_once() {
    let q = KeyEvent::new(KeyCode::Char('q'), KeyModifiers::none());
    let z = KeyEvent::new(KeyCode::Char('z'), KeyModifiers::control());
    let mut map = KeyMap::new();
    assert_eq!(map.get(&vec![q]), None);
    map.insert(vec![q], Action::Quit);
    map.insert(vec![z], Action::Suspend);
    map.insert(vec![q, q], Action::Help);
    assert_eq!(map.get(&vec![q]), Some(Action::Quit));
    assert_eq!(map.get(&vec![z]), Some(Action::Suspend));
    assert_eq!(map.get(&vec![q, q]), Some(Action::Help));
    assert_eq!(map.get(&vec![z, q]), None);
    assert_eq!(map.get(&vec![]), None);
    map.insert(vec![q], Action::ClearScreen);
    assert_eq!(map.get(&vec![q]), Some(Action::ClearScreen));
    assert_eq!(map.get(&vec![q, q]), Some(Action::Help));
    let mut bindings = KeyBindings::new();
    assert!(bindings.get(Mode::Home).is_none());
    bindings.set(Mode::Home, map);
    assert_eq!(bindings.get(Mode::Home).unwrap().get(&vec![z]), Some(Action::Suspend));
}

#[test]
fn screen_is_shared_three_to_one() {
    let screen = Rect::new(0, 0, 80, 24);
    let areas = screen_areas(screen);
    assert_eq!(areas.chat, Rect::new(0, 0, 80, 18));
    assert_eq!(areas.input, Rect::new(0, 18, 80, 6));
    assert_eq!(areas.dialog, screen);
    let areas = screen_areas(Rect::new(2, 3, 40, 40));
    assert_eq!(areas.chat, Rect::new(2, 3, 40, 30));
    assert_eq!(areas.input, Rect::new(2, 33, 40, 10));
    for screen in [Rect::new(0, 0, 0, 0), Rect::new(5, 7, 33, 1), Rect::new(1, 2, 3, 65533)] {
        let areas = screen_areas(screen);
        for part in [areas.chat, areas.input] {
            assert_eq!((part.x, part.width), (screen.x, screen.width));
            assert!(screen.y <= part.y);
            assert!(part.y as u32 + part.height as u32 <= screen.y as u32 + screen.height as u32);
        }
        assert_eq!(areas.dialog, screen);
    }
    let parts = (Rect::new(0, 0, 1, 1), Rect::new(0, 1, 1, 1));
    assert_eq!(areas_from(screen, parts).input, Rect::new(0, 1, 1, 1));
}
