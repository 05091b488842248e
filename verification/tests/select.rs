use ratatui_interact::components::select::{
    calculate_dropdown_height, dropdown_regions, handle_select_key, Select, SelectAction,
    SelectState, SelectStyle,
};
use ratatui_interact::event::{KeyCode, KeyEvent};
use ratatui_interact::{ClickRegion, Color, Modifier, Rect};

#[test]
fn select_test_state_default() {
    let state = SelectState::default();
    assert!(state.selected_index.is_none());
    assert!(!state.is_open);
    assert!(!state.focused);
    assert!(state.enabled);
    assert_eq!(state.highlighted_index, 0);
}

#[test]
fn select_test_state_new() {
    let state = SelectState::new(5);
    assert_eq!(state.total_options, 5);
    assert!(state.selected_index.is_none());
}

#[test]
fn test_state_with_selected() {
    let state = SelectState::with_selected(5, 2);
    assert_eq!(state.selected_index, Some(2));
    assert_eq!(state.highlighted_index, 2);
}

#[test]
fn test_state_with_selected_out_of_bounds() {
    let state = SelectState::with_selected(5, 10);
    assert!(state.selected_index.is_none());
    assert_eq!(state.highlighted_index, 0);
}

#[test]
fn test_open_close() {
    let mut state = SelectState::new(5);

    state.open();
    assert!(state.is_open);

    state.close();
    assert!(!state.is_open);

    state.toggle();
    assert!(state.is_open);

    state.toggle();
    assert!(!state.is_open);
}

#[test]
fn test_open_disabled() {
    let mut state = SelectState::new(5);
    state.enabled = false;

    state.open();
    assert!(!state.is_open);
}

#[test]
fn test_highlight_navigation() {
    let mut state = SelectState::new(5);

    state.highlight_next();
    assert_eq!(state.highlighted_index, 1);

    state.highlight_next();
    assert_eq!(state.highlighted_index, 2);

    state.highlight_prev();
    assert_eq!(state.highlighted_index, 1);

    state.highlight_first();
    assert_eq!(state.highlighted_index, 0);

    state.highlight_last();
    assert_eq!(state.highlighted_index, 4);
}

#[test]
fn test_highlight_bounds() {
    let mut state = SelectState::new(3);

    state.highlight_prev();
    assert_eq!(state.highlighted_index, 0);

    state.highlighted_index = 2;
    state.highlight_next();
    assert_eq!(state.highlighted_index, 2);
}

#[test]
fn test_select() {
    let mut state = SelectState::new(5);
    state.is_open = true;

    state.select(2);
    assert_eq!(state.selected_index, Some(2));
    assert_eq!(state.highlighted_index, 2);
    assert!(!state.is_open);
}

#[test]
fn test_select_highlighted() {
    let mut state = SelectState::new(5);
    state.is_open = true;
    state.highlighted_index = 3;

    state.select_highlighted();
    assert_eq!(state.selected_index, Some(3));
    assert!(!state.is_open);
}

#[test]
fn test_clear_selection() {
    let mut state = SelectState::with_selected(5, 2);
    assert!(state.has_selection());

    state.clear_selection();
    assert!(!state.has_selection());
    assert!(state.selected_index.is_none());
}

#[test]
fn test_set_total() {
    let mut state = SelectState::with_selected(10, 8);
    state.highlighted_index = 9;

    state.set_total(5);
    assert_eq!(state.total_options, 5);
    assert_eq!(state.selected_index, Some(4));
    assert_eq!(state.highlighted_index, 4);
}

#[test]
fn select_test_ensure_visible() {
    let mut state = SelectState::new(20);
    state.highlighted_index = 15;
    state.scroll_offset = 0;

    state.ensure_visible(10);
    assert!(state.scroll_offset >= 6);
}

#[test]
fn select_test_style_default() {
    let style = SelectStyle::default();
    assert_eq!(style.focused_border, Color::Yellow);
    assert_eq!(style.max_visible_options, 8);
}

#[test]
fn test_style_builders() {
    let style = SelectStyle::minimal();
    assert_eq!(style.highlight_style.add_modifier, Modifier::bold());

    let style = SelectStyle::arrow();
    assert_eq!(style.selected_indicator, "→ ");

    let style = SelectStyle::bracket();
    assert_eq!(style.selected_indicator, "[x] ");
}

#[test]
fn test_style_builder_methods() {
    let style = SelectStyle::default()
        .max_options(10)
        .focused_border(Color::Cyan)
        .indicator("↓");

    assert_eq!(style.max_visible_options, 10);
    assert_eq!(style.focused_border, Color::Cyan);
    assert_eq!(style.dropdown_indicator, "↓");
}

#[test]
fn test_handle_key_closed() {
    let mut state = SelectState::new(5);

    let key = KeyEvent::from(KeyCode::Enter);
    let action = handle_select_key(&key, &mut state);
    assert_eq!(action, Some(SelectAction::Open));
    assert!(state.is_open);
}

#[test]
fn test_handle_key_open_navigation() {
    let mut state = SelectState::new(5);
    state.open();

    let key = KeyEvent::from(KeyCode::Down);
    handle_select_key(&key, &mut state);
    assert_eq!(state.highlighted_index, 1);

    let key = KeyEvent::from(KeyCode::Up);
    handle_select_key(&key, &mut state);
    assert_eq!(state.highlighted_index, 0);
}

#[test]
fn test_handle_key_open_select() {
    let mut state = SelectState::new(5);
    state.open();
    state.highlighted_index = 2;

    let key = KeyEvent::from(KeyCode::Enter);
    let action = handle_select_key(&key, &mut state);

    assert_eq!(action, Some(SelectAction::Select(2)));
    assert_eq!(state.selected_index, Some(2));
    assert!(!state.is_open);
}

#[test]
fn test_handle_key_open_escape() {
    let mut state = SelectState::new(5);
    state.open();

    let key = KeyEvent::from(KeyCode::Esc);
    let action = handle_select_key(&key, &mut state);

    assert_eq!(action, Some(SelectAction::Close));
    assert!(!state.is_open);
}

#[test]
fn test_handle_key_disabled() {
    let mut state = SelectState::new(5);
    state.enabled = false;

    let key = KeyEvent::from(KeyCode::Enter);
    let action = handle_select_key(&key, &mut state);

    assert!(action.is_none());
    assert!(!state.is_open);
}

#[test]
fn test_calculate_dropdown_height() {
    assert_eq!(calculate_dropdown_height(3, 8), 5);
    assert_eq!(calculate_dropdown_height(10, 8), 10);
    assert_eq!(calculate_dropdown_height(0, 8), 2);
}

#[test]
fn select_test_click_region_contains() {
    let region = ClickRegion::new(Rect::new(10, 5, 20, 3), SelectAction::Select(0));

    assert!(region.contains(10, 5));
    assert!(region.contains(29, 7));
    assert!(!region.contains(9, 5));
    assert!(!region.contains(30, 5));
}

#[test]
fn highlight_down_then_up_returns() {
    let mut state = SelectState::new(4);
    state.highlighted_index = 1;
    state.highlight_next();
    state.highlight_prev();
    assert_eq!(state.highlighted_index, 1);
}

#[test]
fn dropdown_layout_below_anchor() {
    let options = vec!["Red", "Green", "Blue"];
    let mut state = SelectState::new(options.len());
    state.open();
    let select = Select::new(&options, &state, |o: &&str| o.to_string());
    let labels = select.option_labels();
    assert_eq!(labels, vec!["Red".to_string(), "Green".to_string(), "Blue".to_string()]);
    let (area, rows) = select
        .dropdown_layout(Rect::new(0, 0, 20, 3), Rect::new(0, 0, 40, 20), &labels)
        .unwrap();
    assert_eq!(area, Rect::new(0, 3, 20, 5));
    assert_eq!(rows.len(), 3);
    let regions = dropdown_regions(&rows);
    assert_eq!(regions.len(), 3);
    assert_eq!(regions[1].data, SelectAction::Select(1));
}
