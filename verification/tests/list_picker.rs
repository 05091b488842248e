use ratatui_interact::components::list_picker::{key_hints_footer, text_line, ListPicker, ListPickerState};
use ratatui_interact::Style;

#[test]
fn list_picker_test_state_navigation() {
    let mut state = ListPickerState::new(5);
    assert_eq!(state.selected_index, 0);

    state.select_next();
    assert_eq!(state.selected_index, 1);

    state.select_prev();
    assert_eq!(state.selected_index, 0);

    state.select_prev();
    assert_eq!(state.selected_index, 0);

    state.select_last();
    assert_eq!(state.selected_index, 4);

    state.select_next();
    assert_eq!(state.selected_index, 4);
}

#[test]
fn list_picker_test_ensure_visible() {
    let mut state = ListPickerState::new(20);
    state.selected_index = 15;
    state.ensure_visible(10);
    assert!(state.scroll >= 6);
}

fn render_item(item: &&str, _index: usize, _selected: bool) -> Vec<Vec<(String, Style)>> {
    vec![vec![(item.to_string(), Style::default())]]
}

#[test]
fn test_list_picker_render() {
    let items = vec!["Item 1", "Item 2", "Item 3"];
    let state = ListPickerState::new(items.len());
    let picker = ListPicker::new(&items, &state, render_item).title("Test");

    let lines = picker.build_lines(8);
    assert_eq!(lines.len(), 5);
    assert_eq!(lines[0][0].0, "Test");
    assert_eq!(lines[2][1].0, "Item 1");
    assert_eq!(lines[4][1].0, "Item 3");
}

#[test]
fn test_key_hints_footer() {
    let footer = key_hints_footer(&[("↑↓", "Navigate"), ("Enter", "Select")]);
    assert_eq!(footer.len(), 2);
}

#[test]
fn picker_shows_only_rows_that_fit_and_marks_selection() {
    let items = vec!["a", "b", "c", "d"];
    let mut state = ListPickerState::new(items.len());
    state.select(2);
    state.ensure_visible(2);
    assert_eq!(state.scroll, 1);
    let picker = ListPicker::new(&items, &state, render_item);
    let lines = picker.build_lines(2);
    assert_eq!(lines.len(), 2);
    assert_eq!(lines[0][1].0, "b");
    assert_eq!(lines[1][1].0, "c");
    assert_ne!(lines[0][0].0, lines[1][0].0);
}

#[test]
fn empty_picker_says_no_items() {
    let items: Vec<&str> = vec![];
    let state = ListPickerState::new(0);
    let picker = ListPicker::new(&items, &state, render_item);
    let lines = picker.build_lines(5);
    assert_eq!(lines.len(), 1);
    assert_eq!(lines[0][0].0, "No items");
}

#[test]
fn text_items_render_with_the_default_line() {
    let items = vec!["one".to_string(), "two".to_string()];
    let state = ListPickerState::new(items.len());
    let picker = ListPicker::new(&items, &state, text_line);
    let lines = picker.build_lines(5);
    assert_eq!(lines.len(), 2);
    assert_eq!(lines[0][1].0, "one");
    assert_eq!(lines[1][1].0, "two");
}
