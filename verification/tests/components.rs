use chat_tui::action::Action;
use chat_tui::components::chat_window::{
    indentation, is_user_role, lines_of_log, lines_of_message, loading_line, prefix_lines,
    resolve_scroll, wrap_text, ChatLine, ChatWindow, LineStyle, ScrollTarget,
};
use chat_tui::components::dialog::{Dialog, DialogState, DialogType, DialogView};
use chat_tui::components::input::Input;
use chat_tui::key::{KeyCode, KeyEvent, KeyEventKind, KeyModifiers};
use chat_tui::layout::Rect;
use chat_tui::state::{AppState, ChatMessage};

fn key(code: KeyCode) -> KeyEvent {
    KeyEvent::new(code, KeyModifiers::none())
}

fn ctrl(c: char) -> KeyEvent {
    KeyEvent::new(KeyCode::Char(c), KeyModifiers::control())
}

fn state_with(history: Vec<(&str, &str)>, is_loading: bool) -> AppState {
    AppState {
        chat_history: history
            .into_iter()
            .map(|(role, content)| ChatMessage { role: role.to_string(), content: content.to_string() })
            .collect(),
        is_loading,
        system_prompt: String::new(),
    }
}

fn line(text: &str, style: LineStyle) -> ChatLine {
    ChatLine { text: text.to_string(), style }
}

#[test]
fn wrapped_lines_fit_the_width() {
    let text = "the quick brown fox jumps over the lazy dog and keeps running far away";
    for width in 1..40usize {
        let lines = wrap_text(text, width);
        assert!(!lines.is_empty());
        for line in &lines {
            assert!(line.chars().count() <= width, "{:?} at {}", line, width);
        }
    }
}

#[test]
fn wrap_breaks_at_spaces() {
    assert_eq!(
        wrap_text("hello brave new world", 11),
        vec!["hello brave".to_string(), "new world".to_string()]
    );
    assert_eq!(wrap_text("one two", 3), vec!["one".to_string(), "two".to_string()]);
}

#[test]
fn wrap_breaks_words_that_are_too_long() {
    assert_eq!(
        wrap_text("abcdefghij", 4),
        vec!["abcd".to_string(), "efgh".to_string(), "ij".to_string()]
    );
}

#[test]
fn wrap_never_runs_over_to_save_a_line() {
    let text = format!("foo {}", "x".repeat(50));
    assert_eq!(wrap_text(&text, 54), vec![text.clone()]);
    assert_eq!(wrap_text(&text, 53), vec!["foo".to_string(), "x".repeat(50)]);
    assert_eq!(wrap_text(&text, 52), vec!["foo".to_string(), "x".repeat(50)]);
}

#[test]
fn wrapped_lines_fit_the_display_width() {
    let texts = [
        "the quick brown fox jumps over the lazy dog",
        "  leading and   inner    spaces  ",
        "日本語のテキスト と English の 混在 した 文章",
        "well-known hyphenated-words stay-together or-not",
        "a\tb c\td",
        "",
    ];
    for text in texts {
        for width in 1..30usize {
            for line in wrap_text(text, width) {
                let fits = textwrap::core::display_width(&line) <= width;
                assert!(fits || !line.contains(' '), "{:?} at {}", line, width);
            }
        }
    }
    assert_eq!(wrap_text("日本語", 1), vec!["日".to_string(), "本".to_string(), "語".to_string()]);
}

#[test]
fn wrap_keeps_text_whole_without_room() {
    assert_eq!(wrap_text("no room at all", 0), vec!["no room at all".to_string()]);
}

#[test]
fn wrap_of_empty_text_is_one_empty_line() {
    assert_eq!(wrap_text("", 10), vec![String::new()]);
    assert_eq!(wrap_text("", 0), vec![String::new()]);
}

#[test]
fn wrap_keeps_line_feeds() {
    assert_eq!(wrap_text("a\nb", 10), vec!["a".to_string(), "b".to_string()]);
}

#[test]
fn indentation_is_spaces() {
    assert_eq!(indentation(0), "");
    assert_eq!(indentation(6), "      ");
}

#[test]
fn user_role_is_told_apart() {
    assert!(is_user_role("user"));
    assert!(!is_user_role("assistant"));
    assert!(!is_user_role("users"));
    assert!(!is_user_role("User"));
    assert!(!is_user_role(""));
}

#[test]
fn pieces_get_prefix_and_indent() {
    let pieces = vec!["first".to_string(), "second".to_string(), "third".to_string()];
    assert_eq!(
        prefix_lines("user", &pieces),
        vec![
            line("user: first", LineStyle::User),
            line("      second", LineStyle::User),
            line("      third", LineStyle::User),
        ]
    );
    assert_eq!(prefix_lines("system", &Vec::new()), Vec::new());
}

#[test]
fn message_is_wrapped_in_the_width_left_by_its_prefix() {
    let message = ChatMessage { role: "assistant".to_string(), content: "hello brave new world".to_string() };
    assert_eq!(
        lines_of_message(&message, 22),
        vec![
            line("assistant: hello brave", LineStyle::Reply),
            line("           new world", LineStyle::Reply),
        ]
    );
    assert_eq!(
        lines_of_message(&message, 5),
        vec![line("assistant: hello brave new world", LineStyle::Reply)]
    );
}

#[test]
fn spinner_turns_every_tenth_of_a_second() {
    assert_eq!(loading_line(0), line("assistant: \u{280B} Thinking...", LineStyle::Spinner));
    assert_eq!(loading_line(99).text, "assistant: \u{280B} Thinking...");
    assert_eq!(loading_line(100).text, "assistant: \u{2819} Thinking...");
    assert_eq!(loading_line(250).text, "assistant: \u{2839} Thinking...");
    assert_eq!(loading_line(300).text, "assistant: \u{2838} Thinking...");
    assert_eq!(loading_line(400).text, "assistant: \u{283C} Thinking...");
    assert_eq!(loading_line(500).text, "assistant: \u{2834} Thinking...");
    assert_eq!(loading_line(600).text, "assistant: \u{2826} Thinking...");
    assert_eq!(loading_line(700).text, "assistant: \u{2827} Thinking...");
    assert_eq!(loading_line(800).text, "assistant: \u{2807} Thinking...");
    assert_eq!(loading_line(950).text, "assistant: \u{280F} Thinking...");
    assert_eq!(loading_line(1000).text, "assistant: \u{280B} Thinking...");
    assert_eq!(loading_line(1_700_000_000_123).text, "assistant: \u{2819} Thinking...");
}

#[test]
fn log_shows_history_then_spinner() {
    let state = state_with(vec![("user", "hi"), ("assistant", "hello there")], true);
    let lines = lines_of_log(&state, 40, 0);
    assert_eq!(
        lines,
        vec![
            line("user: hi", LineStyle::User),
            line("assistant: hello there", LineStyle::Reply),
            line("assistant: \u{280B} Thinking...", LineStyle::Spinner),
        ]
    );
    let state = state_with(vec![("user", "hi")], false);
    assert_eq!(lines_of_log(&state, 40, 0), vec![line("user: hi", LineStyle::User)]);
}

#[test]
fn scroll_offset_is_clamped() {
    assert_eq!(resolve_scroll(ScrollTarget::Offset(0), 10, 4), 0);
    assert_eq!(resolve_scroll(ScrollTarget::Offset(3), 10, 4), 3);
    assert_eq!(resolve_scroll(ScrollTarget::Offset(6), 10, 4), 6);
    assert_eq!(resolve_scroll(ScrollTarget::Offset(7), 10, 4), 6);
    assert_eq!(resolve_scroll(ScrollTarget::Offset(usize::MAX), 10, 4), 6);
    assert_eq!(resolve_scroll(ScrollTarget::End, 10, 4), 6);
    assert_eq!(resolve_scroll(ScrollTarget::End, 4, 10), 0);
    assert_eq!(resolve_scroll(ScrollTarget::Offset(5), 4, 10), 0);
    assert_eq!(resolve_scroll(ScrollTarget::End, 0, 0), 0);
    assert_eq!(resolve_scroll(ScrollTarget::End, 3, 0), 3);
}

#[test]
fn chat_keys_move_the_scroll_target() {
    let mut window = ChatWindow::new();
    assert_eq!(window.scroll_target(), ScrollTarget::Offset(0));
    assert_eq!(window.handle_key_event(key(KeyCode::Up)), None);
    assert_eq!(window.scroll_target(), ScrollTarget::Offset(0));
    window.handle_key_event(key(KeyCode::Down));
    window.handle_key_event(key(KeyCode::Char('j')));
    assert_eq!(window.scroll_target(), ScrollTarget::Offset(2));
    window.handle_key_event(key(KeyCode::PageDown));
    assert_eq!(window.scroll_target(), ScrollTarget::Offset(12));
    window.handle_key_event(key(KeyCode::Char('k')));
    assert_eq!(window.scroll_target(), ScrollTarget::Offset(11));
    window.handle_key_event(key(KeyCode::PageUp));
    assert_eq!(window.scroll_target(), ScrollTarget::Offset(1));
    window.handle_key_event(key(KeyCode::PageUp));
    assert_eq!(window.scroll_target(), ScrollTarget::Offset(0));
    window.handle_key_event(key(KeyCode::End));
    assert_eq!(window.scroll_target(), ScrollTarget::End);
    window.handle_key_event(key(KeyCode::Down));
    window.handle_key_event(key(KeyCode::PageUp));
    assert_eq!(window.scroll_target(), ScrollTarget::End);
    window.handle_key_event(key(KeyCode::Home));
    assert_eq!(window.scroll_target(), ScrollTarget::Offset(0));
    window.handle_key_event(key(KeyCode::Char('x')));
    window.handle_key_event(key(KeyCode::Enter));
    assert_eq!(window.scroll_target(), ScrollTarget::Offset(0));
}

#[test]
fn jump_to_end_stays_at_the_bottom_over_draws() {
    let mut window = ChatWindow::new();
    let history: Vec<(&str, &str)> = (0..10).map(|_| ("user", "line")).collect();
    window.register_state_handler(state_with(history.clone(), false));
    window.handle_key_event(key(KeyCode::End));
    for _ in 0..3 {
        let view = window.draw(40, 4, 0).unwrap();
        assert_eq!(view.lines.len(), 10);
        assert_eq!(view.selected, Some(9));
        assert_eq!(window.scroll_target(), ScrollTarget::Offset(6));
    }
    let mut longer = history;
    longer.push(("assistant", "more"));
    window.register_state_handler(state_with(longer, false));
    let view = window.draw(40, 4, 0).unwrap();
    assert_eq!(view.selected, Some(9));
    assert_eq!(window.scroll_target(), ScrollTarget::Offset(6));
}

#[test]
fn draw_clamps_and_selects_the_last_visible_line() {
    let mut window = ChatWindow::new();
    assert_eq!(window.draw(40, 4, 0), None);
    window.register_state_handler(state_with(vec![("user", "a"), ("user", "b"), ("user", "c")], false));
    let view = window.draw(40, 4, 0).unwrap();
    assert_eq!(view.selected, None);
    for _ in 0..5 {
        window.handle_key_event(key(KeyCode::Down));
    }
    assert_eq!(window.scroll_target(), ScrollTarget::Offset(5));
    let view = window.draw(40, 2, 0).unwrap();
    assert_eq!(window.scroll_target(), ScrollTarget::Offset(1));
    assert_eq!(view.selected, Some(2));
    window.handle_key_event(key(KeyCode::Up));
    let view = window.draw(40, 2, 0).unwrap();
    assert_eq!(window.scroll_target(), ScrollTarget::Offset(0));
    assert_eq!(view.selected, Some(1));
    let view = window.draw(40, 0, 0).unwrap();
    assert_eq!(view.selected, Some(0));
}

#[test]
fn draw_leaves_two_columns_free() {
    let mut window = ChatWindow::new();
    window.register_state_handler(state_with(vec![("user", "hello brave new world")], false));
    let view = window.draw(19, 10, 0).unwrap();
    assert_eq!(
        view.lines,
        vec![line("user: hello brave", LineStyle::User), line("      new world", LineStyle::User)]
    );
    let view = window.draw(1, 10, 0).unwrap();
    assert_eq!(view.lines, vec![line("user: hello brave new world", LineStyle::User)]);
}

#[test]
fn chat_update_asks_for_render_on_tick_while_loading() {
    let mut window = ChatWindow::new();
    assert_eq!(window.update(&Action::Tick), None);
    window.register_state_handler(state_with(vec![], true));
    assert_eq!(window.update(&Action::Tick), Some(Action::Render));
    assert_eq!(window.update(&Action::Render), None);
    assert_eq!(window.update(&Action::SendMessage("x".to_string())), None);
    window.register_state_handler(state_with(vec![], false));
    assert_eq!(window.update(&Action::Tick), None);
}

#[test]
fn input_submits_trimmed_text_and_clears() {
    let mut input = Input::new();
    for c in "  Hello there \t".chars() {
        assert_eq!(input.handle_key_event(key(KeyCode::Char(c))), None);
    }
    assert_eq!(input.get_text(), "  Hello there \t");
    assert_eq!(input.cursor(), (0, 15));
    assert_eq!(
        input.handle_key_event(key(KeyCode::Enter)),
        Some(Action::SendMessage("Hello there".to_string()))
    );
    assert_eq!(input.get_text(), "");
    assert_eq!(input.get_lines(), vec![String::new()]);
    assert_eq!(input.cursor(), (0, 0));
}

#[test]
fn input_ignores_enter_on_blank_text() {
    let mut input = Input::new();
    assert_eq!(input.handle_key_event(key(KeyCode::Enter)), None);
    for c in " \t ".chars() {
        input.handle_key_event(key(KeyCode::Char(c)));
    }
    assert_eq!(input.handle_key_event(key(KeyCode::Enter)), None);
    assert_eq!(input.get_text(), " \t ");
    assert_eq!(input.submit(), None);
}

#[test]
fn input_escape_clears_without_sending() {
    let mut input = Input::default();
    for c in "draft".chars() {
        input.handle_key_event(key(KeyCode::Char(c)));
    }
    assert_eq!(input.handle_key_event(key(KeyCode::Esc)), None);
    assert_eq!(input.get_text(), "");
    input.clear();
    assert_eq!(input.get_text(), "");
}

#[test]
fn input_control_c_quits() {
    let mut input = Input::new();
    input.handle_key_event(key(KeyCode::Char('a')));
    assert_eq!(input.handle_key_event(ctrl('c')), Some(Action::Quit));
    assert_eq!(input.get_text(), "a");
    assert_eq!(input.handle_key_event(key(KeyCode::Char('c'))), None);
    assert_eq!(input.get_text(), "ac");
}

#[test]
fn input_without_focus_ignores_keys() {
    let mut input = Input::new();
    input.handle_key_event(key(KeyCode::Char('a')));
    input.set_focus(false);
    assert!(!input.is_focused());
    assert_eq!(input.handle_key_event(key(KeyCode::Char('b'))), None);
    assert_eq!(input.handle_key_event(key(KeyCode::Enter)), None);
    assert_eq!(input.handle_key_event(ctrl('c')), None);
    assert_eq!(input.handle_key_event(key(KeyCode::Esc)), None);
    assert_eq!(input.get_text(), "a");
    input.set_focus(true);
    assert_eq!(input.handle_key_event(key(KeyCode::Enter)), Some(Action::SendMessage("a".to_string())));
}

#[test]
fn input_forwards_editing_keys() {
    let mut input = Input::new();
    for c in "abc".chars() {
        input.handle_key_event(key(KeyCode::Char(c)));
    }
    input.handle_key_event(key(KeyCode::Backspace));
    assert_eq!(input.get_text(), "ab");
    input.handle_key_event(key(KeyCode::Left));
    input.handle_key_event(key(KeyCode::Char('x')));
    assert_eq!(input.get_text(), "axb");
    input.handle_key_event(key(KeyCode::Home));
    input.handle_key_event(key(KeyCode::Delete));
    assert_eq!(input.get_text(), "xb");
    let release = KeyEvent { code: KeyCode::Char('z'), modifiers: KeyModifiers::none(), kind: KeyEventKind::Release };
    input.handle_key_event(release);
    assert_eq!(input.get_text(), "xb");
    input.handle_key_event(key(KeyCode::F(3)));
    input.handle_key_event(key(KeyCode::Other));
    assert_eq!(input.get_text(), "xb");
    assert_eq!(input.update(&Action::Tick), None);
    assert_eq!(input.update(&Action::Render), None);
}

#[test]
fn dialog_starts_hidden_and_ignores_keys() {
    let mut dialog = Dialog::new();
    assert_eq!(dialog.dialog_state(), DialogState::Hidden);
    assert!(dialog.is_focused());
    assert!(dialog.handle_key_event(key(KeyCode::Esc)).is_empty());
    assert!(dialog.handle_key_event(ctrl('s')).is_empty());
    assert!(dialog.handle_key_event(key(KeyCode::Char('a'))).is_empty());
    assert_eq!(dialog.get_text(), "");
    assert_eq!(dialog.draw(Rect::new(0, 0, 100, 40)), None);
    assert_eq!(Dialog::default().dialog_state(), DialogState::Hidden);
}

#[test]
fn dialog_show_seeds_the_editor() {
    let mut dialog = Dialog::new();
    dialog.show("one\r\ntwo\nthree".to_string());
    assert_eq!(dialog.dialog_state(), DialogState::VisibleGeneric);
    assert_eq!(dialog.get_lines(), vec!["one".to_string(), "two".to_string(), "three".to_string()]);
    assert_eq!(dialog.get_text(), "one\ntwo\nthree");
    assert_eq!(dialog.cursor(), (2, 5));
    dialog.show(String::new());
    assert_eq!(dialog.get_lines(), vec![String::new()]);
    dialog.show_system_prompt("x\n".to_string());
    assert_eq!(dialog.dialog_state(), DialogState::VisibleSystemPrompt);
    assert_eq!(dialog.get_lines(), vec!["x".to_string(), String::new()]);
    assert_eq!(dialog.get_text(), "x\n");
    dialog.close();
    assert_eq!(dialog.dialog_state(), DialogState::Hidden);
    assert!(!dialog.is_focused());
    assert_eq!(dialog.get_text(), "");
}

#[test]
fn dialog_save_emits_prompt_then_hide() {
    let mut dialog = Dialog::new();
    dialog.show_system_prompt("Be".to_string());
    for c in " kind".chars() {
        assert!(dialog.handle_key_event(key(KeyCode::Char(c))).is_empty());
    }
    assert!(dialog.handle_key_event(key(KeyCode::Enter)).is_empty());
    assert!(dialog.handle_key_event(key(KeyCode::Char('!'))).is_empty());
    assert_eq!(
        dialog.handle_key_event(ctrl('s')),
        vec![Action::SetSystemPrompt("Be kind\n!".to_string()), Action::HideDialog]
    );
    assert_eq!(dialog.dialog_state(), DialogState::VisibleSystemPrompt);
    assert_eq!(dialog.handle_key_event(key(KeyCode::Esc)), vec![Action::HideDialog]);
    assert_eq!(dialog.get_text(), "Be kind\n!");
    let shifted = KeyEvent::new(
        KeyCode::Char('s'),
        KeyModifiers { shift: true, ..KeyModifiers::control() },
    );
    assert!(dialog.handle_key_event(shifted).is_empty());
}

#[test]
fn dialog_update_follows_the_bus() {
    let mut dialog = Dialog::new();
    assert_eq!(dialog.update(&Action::Tick), None);
    assert_eq!(dialog.update(&Action::ShowSystemPromptDialog), Some(Action::Render));
    assert_eq!(dialog.dialog_state(), DialogState::VisibleSystemPrompt);
    assert_eq!(dialog.get_text(), "");
    assert_eq!(dialog.update(&Action::HideDialog), Some(Action::FocusInput));
    assert_eq!(dialog.dialog_state(), DialogState::Hidden);
    let mut state = state_with(vec![], false);
    state.system_prompt = "Stay calm".to_string();
    dialog.register_state_handler(state);
    assert_eq!(dialog.update(&Action::ShowSystemPromptDialog), Some(Action::Render));
    assert_eq!(dialog.get_text(), "Stay calm");
    assert_eq!(dialog.update(&Action::ShowDialog("note".to_string())), Some(Action::Render));
    assert_eq!(dialog.dialog_state(), DialogState::VisibleGeneric);
    assert_eq!(dialog.get_text(), "note");
    assert_eq!(dialog.update(&Action::SendMessage("x".to_string())), None);
    assert_eq!(dialog.get_text(), "note");
}

#[test]
fn dialog_is_centred_and_capped() {
    let mut dialog = Dialog::new();
    dialog.show("x".to_string());
    assert_eq!(
        dialog.draw(Rect::new(0, 0, 100, 40)),
        Some(DialogView { area: Rect::new(10, 5, 80, 30), kind: DialogType::Generic, focused: true })
    );
    assert_eq!(
        dialog.draw(Rect::new(3, 4, 60, 20)),
        Some(DialogView { area: Rect::new(0, 0, 60, 20), kind: DialogType::Generic, focused: true })
    );
    assert_eq!(dialog.draw(Rect::new(0, 0, 81, 31)).unwrap().area, Rect::new(0, 0, 80, 30));
    assert_eq!(dialog.draw(Rect::new(0, 0, 83, 33)).unwrap().area, Rect::new(1, 1, 80, 30));
    assert_eq!(dialog.draw(Rect::new(0, 0, 0, 0)).unwrap().area, Rect::new(0, 0, 0, 0));
}

#[test]
fn dialog_titles_name_what_is_edited() {
    assert_eq!(DialogType::SystemPrompt.title(), "System Prompt Editor");
    assert_eq!(DialogType::Generic.title(), "Text Editor");
    assert_eq!(DialogType::SystemPrompt.bottom_title(), "Ctrl+Enter or Ctrl+S: Save | Esc: Cancel");
    assert_eq!(DialogType::Generic.bottom_title(), "Ctrl+Enter or Ctrl+S: Submit | Esc: Cancel");
    assert_eq!(DialogType::default(), DialogType::SystemPrompt);
}

fn cells(x: u16, y: u16, width: u16, height: u16) -> ratatui::buffer::Buffer {
    ratatui::buffer::Buffer::empty(ratatui::layout::Rect { x, y, width, height })
}

#[test]
fn page_keys_go_by_the_height_that_was_drawn() {
    let mut dialog = Dialog::new();
    dialog.show("l0\nl1\nl2\nl3\nl4\nl5\nl6\nl7\nl8\nl9".to_string());
    assert_eq!(dialog.cursor(), (9, 2));
    let mut buffer = cells(0, 0, 30, 10);
    assert!(dialog.render(Rect::new(4, 2, 20, 3), &mut buffer));
    assert_eq!(buffer.area, ratatui::layout::Rect::new(0, 0, 30, 10));
    assert_eq!(buffer[(4, 2)].symbol(), "l");
    assert_eq!(buffer[(5, 2)].symbol(), "7");
    assert_eq!(buffer[(5, 4)].symbol(), "9");
    assert_eq!(buffer[(5, 5)].symbol(), " ");
    assert_eq!(buffer[(3, 2)].symbol(), " ");
    assert_eq!(dialog.cursor(), (9, 2));
    assert_eq!(dialog.get_lines().len(), 10);
    assert!(dialog.handle_key_event(key(KeyCode::PageUp)).is_empty());
    assert_eq!(dialog.cursor(), (6, 2));
    assert!(dialog.render(Rect::new(4, 2, 20, 3), &mut buffer));
    assert!(dialog.handle_key_event(key(KeyCode::PageUp)).is_empty());
    assert_eq!(dialog.cursor(), (3, 2));
    assert!(dialog.render(Rect::new(4, 2, 20, 3), &mut buffer));
    assert!(dialog.handle_key_event(key(KeyCode::PageDown)).is_empty());
    assert_eq!(dialog.cursor(), (4, 2));
}

#[test]
fn page_keys_go_nowhere_before_the_first_draw() {
    let mut dialog = Dialog::new();
    dialog.show("l0\nl1\nl2\nl3".to_string());
    assert!(dialog.handle_key_event(key(KeyCode::PageUp)).is_empty());
    assert_eq!(dialog.cursor(), (0, 0));
}

#[test]
fn hidden_dialog_draws_no_text() {
    let mut dialog = Dialog::new();
    let mut buffer = cells(0, 0, 20, 3);
    let blank = buffer.clone();
    assert!(!dialog.render(Rect::new(0, 0, 20, 3), &mut buffer));
    dialog.show("text".to_string());
    assert!(dialog.render(Rect::new(0, 0, 20, 3), &mut buffer));
    assert_ne!(buffer, blank);
    dialog.close();
    let drawn = buffer.clone();
    assert!(!dialog.render(Rect::new(0, 0, 20, 3), &mut buffer));
    assert_eq!(buffer, drawn);
}

#[test]
fn input_draws_its_text_and_keeps_it() {
    let mut input = Input::new();
    for c in "hello".chars() {
        input.handle_key_event(key(KeyCode::Char(c)));
    }
    let mut buffer = cells(0, 0, 12, 4);
    assert!(input.render(Rect::new(1, 1, 10, 2), &mut buffer));
    assert_eq!(buffer[(1, 1)].symbol(), "h");
    assert_eq!(buffer[(5, 1)].symbol(), "o");
    assert_eq!(buffer[(0, 0)].symbol(), " ");
    assert_eq!(input.get_text(), "hello");
    assert_eq!(input.cursor(), (0, 5));
    assert!(input.is_focused());
    assert!(input.render(Rect::new(0, 0, 0, 0), &mut buffer));
    assert_eq!(input.get_text(), "hello");
}

#[test]
fn nothing_is_drawn_where_the_buffer_has_no_cells() {
    let mut input = Input::new();
    input.handle_key_event(key(KeyCode::Char('a')));
    let mut buffer = cells(2, 2, 10, 5);
    let blank = buffer.clone();
    assert!(!input.render(Rect::new(0, 0, 5, 5), &mut buffer));
    assert!(!input.render(Rect::new(2, 2, 11, 5), &mut buffer));
    assert!(!input.render(Rect::new(2, 2, 10, 6), &mut buffer));
    assert!(!input.render(Rect::new(1, 2, 3, 3), &mut buffer));
    assert_eq!(buffer, blank);
    let mut torn = cells(0, 0, 10, 5);
    torn.content.truncate(20);
    assert!(!input.render(Rect::new(0, 0, 10, 5), &mut torn));
    assert!(!input.render(Rect::new(0, 0, 10, 1), &mut torn));
    assert!(input.render(Rect::new(2, 2, 10, 5), &mut buffer));
    assert_eq!(buffer[(2, 2)].symbol(), "a");
    assert_eq!(input.get_text(), "a");
    assert_eq!(input.cursor(), (0, 1));
}

#[test]
fn nothing_is_drawn_beyond_the_screen_coordinates() {
    let mut input = Input::new();
    input.handle_key_event(key(KeyCode::Char('a')));
    let mut wide = cells(0, 0, 65535, 1);
    assert!(!input.render(Rect::new(0, 0, 65534, 1), &mut wide));
    assert!(input.render(Rect::new(0, 0, 65533, 1), &mut wide));
    let mut far = cells(65530, 65530, 5, 5);
    assert!(input.render(Rect::new(65530, 65530, 5, 5), &mut far));
    assert_eq!(far[(65530, 65530)].symbol(), "a");
    assert_eq!(input.get_text(), "a");
    assert_eq!(input.cursor(), (0, 1));
}

#[test]
fn page_keys_are_safe_after_the_highest_view() {
    let mut input = Input::new();
    input.handle_key_event(key(KeyCode::Char('a')));
    let mut tall = cells(0, 0, 1, 40000);
    assert!(!input.render(Rect::new(0, 0, 1, 32768), &mut tall));
    assert!(!input.render(Rect::new(0, 0, 1, 40000), &mut tall));
    assert!(input.render(Rect::new(0, 0, 1, 32767), &mut tall));
    assert_eq!(input.handle_key_event(key(KeyCode::PageUp)), None);
    assert_eq!(input.handle_key_event(key(KeyCode::PageDown)), None);
    assert_eq!(input.get_text(), "a");
    let mut dialog = Dialog::new();
    dialog.show("a\nb".to_string());
    assert!(!dialog.render(Rect::new(0, 0, 1, 32768), &mut tall));
    assert!(dialog.render(Rect::new(0, 0, 1, 32767), &mut tall));
    assert!(dialog.handle_key_event(key(KeyCode::PageUp)).is_empty());
    assert_eq!(dialog.get_text(), "a\nb");
}
