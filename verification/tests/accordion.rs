use ratatui_interact::components::accordion::{
    accordion_layout, calculate_height, AccordionMode, AccordionState, AccordionStyle,
};
use ratatui_interact::Rect;

#[test]
fn test_accordion_state_new() {
    let state = AccordionState::new(5);
    assert_eq!(state.total_items, 5);
    assert_eq!(state.focused_index, 0);
    assert!(state.expanded.is_empty());
    assert_eq!(state.mode, AccordionMode::Multiple);
}

#[test]
fn test_accordion_state_toggle() {
    let mut state = AccordionState::new(3);

    state.toggle("item1");
    assert!(state.is_expanded("item1"));

    state.toggle("item1");
    assert!(!state.is_expanded("item1"));
}

#[test]
fn test_accordion_state_single_mode() {
    let mut state = AccordionState::new(3).with_mode(AccordionMode::Single);

    state.expand("item1");
    assert!(state.is_expanded("item1"));

    state.expand("item2");
    assert!(!state.is_expanded("item1"));
    assert!(state.is_expanded("item2"));
}

#[test]
fn test_accordion_state_multiple_mode() {
    let mut state = AccordionState::new(3).with_mode(AccordionMode::Multiple);

    state.expand("item1");
    state.expand("item2");

    assert!(state.is_expanded("item1"));
    assert!(state.is_expanded("item2"));
}

#[test]
fn test_accordion_state_expand_collapse() {
    let mut state = AccordionState::new(3);

    state.expand("item1");
    assert!(state.is_expanded("item1"));

    state.collapse("item1");
    assert!(!state.is_expanded("item1"));
}

#[test]
fn test_accordion_state_navigation() {
    let mut state = AccordionState::new(5);

    assert_eq!(state.focused_index(), 0);

    state.focus_next();
    assert_eq!(state.focused_index(), 1);

    state.focus_next();
    assert_eq!(state.focused_index(), 2);

    state.focus_prev();
    assert_eq!(state.focused_index(), 1);

    state.focus(4);
    assert_eq!(state.focused_index(), 4);

    state.focus_next();
    assert_eq!(state.focused_index(), 4);

    state.focus(0);
    state.focus_prev();
    assert_eq!(state.focused_index(), 0);
}

#[test]
fn test_accordion_state_collapse_all() {
    let mut state = AccordionState::new(3).with_mode(AccordionMode::Multiple);

    state.expand("item1");
    state.expand("item2");
    state.expand("item3");

    assert_eq!(state.expanded.len(), 3);

    state.collapse_all();
    assert!(state.expanded.is_empty());
}

#[test]
fn test_accordion_style_default() {
    let style = AccordionStyle::default();
    assert_eq!(style.expanded_icon, "▼ ");
    assert_eq!(style.collapsed_icon, "▶ ");
    assert!(!style.show_borders);
    assert_eq!(style.content_indent, 2);
}

#[test]
fn test_accordion_style_minimal() {
    let style = AccordionStyle::minimal();
    assert_eq!(style.expanded_icon, "- ");
    assert_eq!(style.collapsed_icon, "+ ");
}

struct Item {
    id: String,
}

#[test]
fn test_calculate_height() {
    let items = vec![
        Item { id: "1".into() },
        Item { id: "2".into() },
        Item { id: "3".into() },
    ];
    let mut state = AccordionState::new(items.len());
    let content_heights = vec![3u16, 5, 2];

    let height = calculate_height(&items, &state, |item: &Item, _| item.id.clone(), &content_heights, false);
    assert_eq!(height, 3);

    state.expand("1");
    let height = calculate_height(&items, &state, |item: &Item, _| item.id.clone(), &content_heights, false);
    assert_eq!(height, 6);

    state.expand("2");
    let height = calculate_height(&items, &state, |item: &Item, _| item.id.clone(), &content_heights, false);
    assert_eq!(height, 11);

    let height = calculate_height(&items, &state, |item: &Item, _| item.id.clone(), &content_heights, true);
    assert_eq!(height, 14);
}

#[test]
fn single_mode_never_opens_two() {
    let mut state = AccordionState::new(3).with_mode(AccordionMode::Single);
    state.toggle("a");
    state.toggle("b");
    state.expand("c");
    assert_eq!(state.expanded.len(), 1);
    assert!(state.is_expanded("c"));
    state.toggle("c");
    assert!(state.expanded.is_empty());
}

#[test]
fn multiple_mode_toggle_twice_restores() {
    let mut state = AccordionState::new(3);
    state.expand("a");
    state.toggle("b");
    state.toggle("b");
    assert!(state.is_expanded("a"));
    assert!(!state.is_expanded("b"));
    assert_eq!(state.expanded.len(), 1);
}

#[test]
fn layout_places_headers_and_content() {
    let ids = vec!["1".to_string(), "2".to_string()];
    let mut state = AccordionState::new(2);
    state.expand("1");
    let style = AccordionStyle::default();
    let heights = [2u16, 2];
    let rows = accordion_layout(&state, &style, &ids, Some(&heights), Rect::new(0, 0, 20, 10));
    assert_eq!(rows.len(), 2);
    assert_eq!(rows[0].header, Some(Rect::new(0, 0, 20, 1)));
    assert!(rows[0].expanded);
    assert!(rows[0].focused);
    assert_eq!(rows[1].header, Some(Rect::new(0, 3, 20, 1)));
}

#[test]
fn test_accordion_render_collapsed() {
    let ids = vec!["1".to_string(), "2".to_string()];
    let state = AccordionState::new(ids.len());
    let style = AccordionStyle::default();
    let rows = accordion_layout(&state, &style, &ids, None, Rect::new(0, 0, 20, 10));
    assert_eq!(rows[0].header, Some(Rect::new(0, 0, 20, 1)));
    assert!(!rows[0].expanded);
    assert_eq!(style.collapsed_icon, "▶ ");
    assert_eq!(rows[1].header, Some(Rect::new(0, 1, 20, 1)));
    assert_eq!(rows[0].content, None);
}

#[test]
fn test_accordion_render_expanded() {
    let ids = vec!["1".to_string(), "2".to_string()];
    let mut state = AccordionState::new(ids.len());
    state.expand("1");
    let style = AccordionStyle::default();
    let heights = [2u16, 2];
    let rows = accordion_layout(&state, &style, &ids, Some(&heights), Rect::new(0, 0, 20, 10));
    assert!(rows[0].expanded);
    assert_eq!(style.expanded_icon, "▼ ");
    let content = rows[0].content.unwrap();
    assert_eq!(content.y, 1);
    assert_eq!(content.height, 2);
    assert_eq!(rows[1].header, Some(Rect::new(0, 3, 20, 1)));
}
