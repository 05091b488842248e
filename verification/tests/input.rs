use ratatui_interact::components::input::{Input, InputAction, InputState, InputStyle};
use ratatui_interact::{Color, Rect};

#[test]
fn input_test_state_default() {
    let state = InputState::default();
    assert!(state.text.is_empty());
    assert_eq!(state.cursor_pos, 0);
    assert!(!state.focused);
    assert!(state.enabled);
}

#[test]
fn input_test_state_new() {
    let state = InputState::new("Hello");
    assert_eq!(state.text, "Hello");
    assert_eq!(state.cursor_pos, 5);
}

#[test]
fn test_insert_char() {
    let mut state = InputState::new("Hello");
    state.insert_char('!');
    assert_eq!(state.text, "Hello!");
    assert_eq!(state.cursor_pos, 6);
}

#[test]
fn test_insert_char_middle() {
    let mut state = InputState::new("Hllo");
    state.cursor_pos = 1;
    state.insert_char('e');
    assert_eq!(state.text, "Hello");
    assert_eq!(state.cursor_pos, 2);
}

#[test]
fn test_insert_str() {
    let mut state = InputState::new("Hello");
    state.insert_str(" World");
    assert_eq!(state.text, "Hello World");
}

#[test]
fn test_delete_char_backward() {
    let mut state = InputState::new("Hello");
    assert!(state.delete_char_backward());
    assert_eq!(state.text, "Hell");
    assert_eq!(state.cursor_pos, 4);
}

#[test]
fn test_delete_char_backward_at_start() {
    let mut state = InputState::new("Hello");
    state.cursor_pos = 0;
    assert!(!state.delete_char_backward());
    assert_eq!(state.text, "Hello");
}

#[test]
fn test_delete_char_forward() {
    let mut state = InputState::new("Hello");
    state.cursor_pos = 0;
    assert!(state.delete_char_forward());
    assert_eq!(state.text, "ello");
}

#[test]
fn test_delete_char_forward_at_end() {
    let mut state = InputState::new("Hello");
    assert!(!state.delete_char_forward());
    assert_eq!(state.text, "Hello");
}

#[test]
fn test_move_cursor() {
    let mut state = InputState::new("Hello");
    assert_eq!(state.cursor_pos, 5);

    state.move_left();
    assert_eq!(state.cursor_pos, 4);

    state.move_right();
    assert_eq!(state.cursor_pos, 5);

    state.move_home();
    assert_eq!(state.cursor_pos, 0);

    state.move_end();
    assert_eq!(state.cursor_pos, 5);
}

#[test]
fn test_move_cursor_bounds() {
    let mut state = InputState::new("Hi");

    state.move_home();
    state.move_left();
    assert_eq!(state.cursor_pos, 0);

    state.move_end();
    state.move_right();
    assert_eq!(state.cursor_pos, 2);
}

#[test]
fn test_move_word() {
    let mut state = InputState::new("Hello World Test");

    state.move_home();
    state.move_word_right();
    assert_eq!(state.cursor_pos, 6);

    state.move_word_right();
    assert_eq!(state.cursor_pos, 12);

    state.move_word_left();
    assert_eq!(state.cursor_pos, 6);
}

#[test]
fn input_test_clear() {
    let mut state = InputState::new("Hello");
    state.clear();
    assert!(state.text.is_empty());
    assert_eq!(state.cursor_pos, 0);
}

#[test]
fn test_set_text() {
    let mut state = InputState::new("Hello");
    state.set_text("World");
    assert_eq!(state.text, "World");
    assert_eq!(state.cursor_pos, 5);
}

#[test]
fn test_text_before_after_cursor() {
    let mut state = InputState::new("Hello");
    state.cursor_pos = 2;

    assert_eq!(state.text_before_cursor(), "He");
    assert_eq!(state.text_after_cursor(), "llo");
}

#[test]
fn test_unicode_handling() {
    let mut state = InputState::new("你好");
    assert_eq!(state.cursor_pos, 2);

    state.move_left();
    assert_eq!(state.cursor_pos, 1);

    state.insert_char('世');
    assert_eq!(state.text, "你世好");
}

#[test]
fn test_emoji_handling() {
    let mut state = InputState::new("Hi 👋");
    assert_eq!(state.len(), 4);

    state.delete_char_backward();
    assert_eq!(state.text, "Hi ");
}

#[test]
fn test_disabled_input() {
    let mut state = InputState::new("Hello");
    state.enabled = false;

    state.insert_char('!');
    assert_eq!(state.text, "Hello");

    assert!(!state.delete_char_backward());
    assert_eq!(state.text, "Hello");
}

#[test]
fn test_is_empty_and_len() {
    let state = InputState::empty();
    assert!(state.is_empty());
    assert_eq!(state.len(), 0);

    let state = InputState::new("Test");
    assert!(!state.is_empty());
    assert_eq!(state.len(), 4);
}

#[test]
fn test_input_style_builder() {
    let style = InputStyle::default()
        .focused_border(Color::Cyan)
        .text_fg(Color::Green);

    assert_eq!(style.focused_border, Color::Cyan);
    assert_eq!(style.text_fg, Color::Green);
}

#[test]
fn backspace_after_typing_restores_text() {
    let mut state = InputState::new("abc");
    state.cursor_pos = 1;
    state.insert_char('X');
    assert_eq!(state.text, "aXbc");
    assert!(state.delete_char_backward());
    assert_eq!(state.text, "abc");
    assert_eq!(state.cursor_pos, 1);
}

#[test]
fn delete_word_backward_removes_word_and_spaces() {
    let mut state = InputState::new("hello big world");
    assert!(state.delete_word_backward());
    assert_eq!(state.text, "hello big ");
    assert!(state.delete_word_backward());
    assert_eq!(state.text, "hello  ");
    assert_eq!(state.cursor_pos, 6);
}

#[test]
fn input_widget_spans_and_border() {
    let mut state = InputState::new("");
    let input = Input::new(&state).placeholder("type here");
    let spans = input.spans();
    assert_eq!(spans.len(), 1);
    assert_eq!(spans[0].0, "type here");

    state.focused = true;
    let input = Input::new(&state).label("Name");
    assert_eq!(input.border_color(), Color::Yellow);
    assert_eq!(input.inner_area(Rect::new(0, 0, 10, 3)), Rect::new(1, 1, 8, 1));
}

#[test]
fn delete_word_backward_over_spaces_only_deletes_nothing() {
    let mut state = InputState::new("  ");
    assert_eq!(state.cursor_pos, 2);
    assert!(!state.delete_word_backward());
    assert_eq!(state.text, "  ");
    assert_eq!(state.cursor_pos, 0);
}

#[test]
fn input_click_region_covers_its_area() {
    let state = InputState::new("x");
    let region = Input::new(&state).click_region(Rect::new(2, 3, 20, 3));
    assert_eq!(region.area, Rect::new(2, 3, 20, 3));
    assert_eq!(region.data, InputAction::Focus);
}
