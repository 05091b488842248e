use ratatui_interact::components::scrollable_content::{
    handle_scrollable_content_key, ScrollableContent, ScrollableContentAction,
    ScrollableContentState, ScrollableContentStyle,
};
use ratatui_interact::event::{KeyCode, KeyEvent, KeyModifiers};
use ratatui_interact::Rect;

fn sample_lines() -> Vec<String> {
    (1..=100).map(|i| format!("Line {}", i)).collect()
}

#[test]
fn scrollable_content_test_state_new() {
    let lines = vec!["a".to_string(), "b".to_string()];
    let state = ScrollableContentState::new(lines.clone());
    assert_eq!(state.lines(), &lines[..]);
    assert_eq!(state.scroll_offset(), 0);
    assert!(!state.is_focused());
    assert!(!state.is_fullscreen());
}

#[test]
fn test_state_empty() {
    let state = ScrollableContentState::empty();
    assert!(state.lines().is_empty());
    assert_eq!(state.line_count(), 0);
}

#[test]
fn test_scroll_up() {
    let mut state = ScrollableContentState::new(sample_lines());
    state.set_scroll_offset(50);
    assert_eq!(state.scroll_offset(), 50);

    state.scroll_up(10);
    assert_eq!(state.scroll_offset(), 40);

    state.scroll_up(100);
    assert_eq!(state.scroll_offset(), 0);
}

#[test]
fn test_scroll_down() {
    let mut state = ScrollableContentState::new(sample_lines());
    let visible_height = 20;

    state.scroll_down(10, visible_height);
    assert_eq!(state.scroll_offset(), 10);

    state.scroll_down(1000, visible_height);
    assert_eq!(state.scroll_offset(), 100 - visible_height);
}

#[test]
fn test_scroll_to_top_bottom() {
    let mut state = ScrollableContentState::new(sample_lines());
    let visible_height = 20;

    state.scroll_to_bottom(visible_height);
    assert_eq!(state.scroll_offset(), 80);
    assert!(state.is_at_bottom(visible_height));

    state.scroll_to_top();
    assert_eq!(state.scroll_offset(), 0);
    assert!(state.is_at_top());
}

#[test]
fn test_page_up_down() {
    let mut state = ScrollableContentState::new(sample_lines());
    let visible_height = 20;

    state.page_down(visible_height);
    assert_eq!(state.scroll_offset(), 19);

    state.page_up(visible_height);
    assert_eq!(state.scroll_offset(), 0);
}

#[test]
fn test_visible_lines() {
    let state = ScrollableContentState::new(sample_lines());
    let visible = state.visible_lines(5);
    assert_eq!(visible.len(), 5);
    assert_eq!(visible[0], "Line 1");
    assert_eq!(visible[4], "Line 5");
}

#[test]
fn test_focus_and_fullscreen() {
    let mut state = ScrollableContentState::empty();

    assert!(!state.is_focused());
    state.set_focused(true);
    assert!(state.is_focused());

    assert!(!state.is_fullscreen());
    assert!(state.toggle_fullscreen());
    assert!(state.is_fullscreen());
    assert!(!state.toggle_fullscreen());
    assert!(!state.is_fullscreen());
}

#[test]
fn test_content_as_string() {
    let lines = vec!["a".to_string(), "b".to_string(), "c".to_string()];
    let state = ScrollableContentState::new(lines);
    assert_eq!(state.content_as_string(), "a\nb\nc");
}

#[test]
fn test_set_lines_clamps_scroll() {
    let mut state = ScrollableContentState::new(sample_lines());
    state.set_scroll_offset(50);

    state.set_lines(vec!["a".to_string(), "b".to_string()]);
    assert_eq!(state.scroll_offset(), 1);
}

#[test]
fn scrollable_content_test_style_default() {
    let style = ScrollableContentStyle::default();
    assert!(style.show_borders);
    assert!(style.show_scroll_indicators);
}

#[test]
fn test_style_borderless() {
    let style = ScrollableContentStyle::borderless();
    assert!(!style.show_borders);
}

#[test]
fn test_handle_key_scroll() {
    let mut state = ScrollableContentState::new(sample_lines());
    let visible_height = 20;

    let key = KeyEvent::new(KeyCode::Down, KeyModifiers::none());
    let action = handle_scrollable_content_key(&mut state, &key, visible_height);
    assert_eq!(action, Some(ScrollableContentAction::ScrollDown));
    assert_eq!(state.scroll_offset(), 1);

    let key = KeyEvent::new(KeyCode::Char('j'), KeyModifiers::none());
    handle_scrollable_content_key(&mut state, &key, visible_height);
    assert_eq!(state.scroll_offset(), 2);

    let key = KeyEvent::new(KeyCode::Up, KeyModifiers::none());
    let action = handle_scrollable_content_key(&mut state, &key, visible_height);
    assert_eq!(action, Some(ScrollableContentAction::ScrollUp));
    assert_eq!(state.scroll_offset(), 1);

    let key = KeyEvent::new(KeyCode::Char('k'), KeyModifiers::none());
    handle_scrollable_content_key(&mut state, &key, visible_height);
    assert_eq!(state.scroll_offset(), 0);

    state.set_scroll_offset(50);
    let key = KeyEvent::new(KeyCode::Home, KeyModifiers::none());
    let action = handle_scrollable_content_key(&mut state, &key, visible_height);
    assert_eq!(action, Some(ScrollableContentAction::ScrollToTop));
    assert_eq!(state.scroll_offset(), 0);

    let key = KeyEvent::new(KeyCode::End, KeyModifiers::none());
    let action = handle_scrollable_content_key(&mut state, &key, visible_height);
    assert_eq!(action, Some(ScrollableContentAction::ScrollToBottom));
    assert_eq!(state.scroll_offset(), 80);
}

#[test]
fn test_handle_key_fullscreen() {
    let mut state = ScrollableContentState::new(sample_lines());
    let visible_height = 20;

    let key = KeyEvent::new(KeyCode::F(10), KeyModifiers::none());
    let action = handle_scrollable_content_key(&mut state, &key, visible_height);
    assert_eq!(action, Some(ScrollableContentAction::ToggleFullscreen));
    assert!(state.is_fullscreen());

    let key = KeyEvent::new(KeyCode::Enter, KeyModifiers::none());
    handle_scrollable_content_key(&mut state, &key, visible_height);
    assert!(!state.is_fullscreen());
}

#[test]
fn test_widget_render() {
    let state = ScrollableContentState::new(vec![
        "Line 1".to_string(),
        "Line 2".to_string(),
        "Line 3".to_string(),
    ]);
    let widget = ScrollableContent::new(&state).title("Test");
    let view = widget.view(Rect::new(0, 0, 20, 10)).unwrap();
    assert!(view.lines.iter().any(|l| l.contains("Line 1")));
}

#[test]
fn test_inner_area() {
    let state = ScrollableContentState::empty();
    let content = ScrollableContent::new(&state);
    let area = Rect::new(0, 0, 20, 10);

    let inner = content.inner_area(area);
    assert_eq!(inner.x, 1);
    assert_eq!(inner.y, 1);
    assert_eq!(inner.width, 18);
    assert_eq!(inner.height, 8);
}

#[test]
fn test_title() {
    let mut state = ScrollableContentState::empty();
    state.set_title("My Title");
    assert_eq!(state.title(), Some("My Title"));

    let widget = ScrollableContent::new(&state);
    assert_eq!(widget.title, Some("My Title"));

    let widget = ScrollableContent::new(&state).title("Override");
    assert_eq!(widget.title, Some("Override"));
}

#[test]
fn scroll_down_then_up_restores_offset() {
    let mut state = ScrollableContentState::new(sample_lines());
    state.set_scroll_offset(30);
    state.scroll_down(7, 20);
    state.scroll_up(7);
    assert_eq!(state.scroll_offset(), 30);
}

#[test]
fn view_places_markers_when_more_content() {
    let mut state = ScrollableContentState::new(sample_lines());
    state.set_scroll_offset(10);
    let widget = ScrollableContent::new(&state);
    let view = widget.view(Rect::new(0, 0, 20, 10)).unwrap();
    assert_eq!(view.inner, Rect::new(1, 1, 18, 8));
    assert_eq!(view.lines.len(), 8);
    assert_eq!(view.lines[0], "Line 11");
    assert!(view.up_marker.is_some());
    assert!(view.down_marker.is_some());
}

#[test]
fn borderless_title_takes_top_row() {
    let state = ScrollableContentState::new(vec!["x".to_string()]);
    let pane = ScrollableContent::new(&state).style(ScrollableContentStyle::borderless()).title("T");
    assert_eq!(pane.view(Rect::new(0, 0, 20, 10)).unwrap().inner, Rect::new(0, 1, 20, 9));
    assert_eq!(pane.inner_area(Rect::new(0, 0, 20, 10)), Rect::new(0, 0, 20, 10));
    let plain = ScrollableContent::new(&state).style(ScrollableContentStyle::borderless());
    assert_eq!(plain.view(Rect::new(0, 0, 20, 10)).unwrap().inner, Rect::new(0, 0, 20, 10));
}
