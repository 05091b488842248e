use ratatui_interact::components::tab_view::{
    handle_tab_view_key, Tab, TabPosition, TabView, TabViewAction, TabViewState, TabViewStyle,
};
use ratatui_interact::event::{KeyCode, KeyEvent, KeyModifiers};
use ratatui_interact::{FocusId, Focusable, Rect};

#[test]
fn test_tab_creation() {
    let tab = Tab::new("Test").icon("🔧").badge("5").enabled(true);

    assert_eq!(tab.label, "Test");
    assert_eq!(tab.icon, Some("🔧"));
    assert_eq!(tab.badge, Some("5"));
    assert!(tab.enabled);
}

#[test]
fn test_tab_display_width() {
    let simple = Tab::new("Test");
    assert_eq!(simple.display_width(), 6);

    let with_icon = Tab::new("Test").icon("⚙");
    assert_eq!(with_icon.display_width(), 8);

    let with_badge = Tab::new("Test").badge("3");
    assert_eq!(with_badge.display_width(), 9);
}

#[test]
fn tab_view_test_state_navigation() {
    let mut state = TabViewState::new(5);
    assert_eq!(state.selected_index, 0);

    state.select_next();
    assert_eq!(state.selected_index, 1);

    state.select_prev();
    assert_eq!(state.selected_index, 0);

    state.select_prev();
    assert_eq!(state.selected_index, 0);

    state.select_last();
    assert_eq!(state.selected_index, 4);

    state.select_next();
    assert_eq!(state.selected_index, 4);

    state.select_first();
    assert_eq!(state.selected_index, 0);
}

#[test]
fn test_state_direct_select() {
    let mut state = TabViewState::new(5);

    state.select(3);
    assert_eq!(state.selected_index, 3);

    state.select(10);
    assert_eq!(state.selected_index, 3);
}

#[test]
fn test_state_focus_toggle() {
    let mut state = TabViewState::new(3);
    assert!(state.tab_bar_focused);

    state.toggle_focus();
    assert!(!state.tab_bar_focused);

    state.toggle_focus();
    assert!(state.tab_bar_focused);
}

#[test]
fn tab_view_test_ensure_visible() {
    let mut state = TabViewState::new(20);
    state.selected_index = 15;
    state.ensure_visible(10);
    assert!(state.scroll_offset >= 6);
}

#[test]
fn test_tab_position() {
    assert!(TabPosition::Top.is_horizontal());
    assert!(TabPosition::Bottom.is_horizontal());
    assert!(TabPosition::Left.is_vertical());
    assert!(TabPosition::Right.is_vertical());

    assert!(!TabPosition::Top.is_vertical());
    assert!(!TabPosition::Left.is_horizontal());
}

#[test]
fn tab_view_test_style_presets() {
    let top = TabViewStyle::top();
    assert_eq!(top.position, TabPosition::Top);

    let bottom = TabViewStyle::bottom();
    assert_eq!(bottom.position, TabPosition::Bottom);

    let left = TabViewStyle::left();
    assert_eq!(left.position, TabPosition::Left);
    assert!(left.tab_width.is_some());

    let right = TabViewStyle::right();
    assert_eq!(right.position, TabPosition::Right);
}

#[test]
fn test_focusable_impl() {
    let mut state = TabViewState::with_focus_id(3, FocusId::new(42));

    assert_eq!(state.focus_id().id(), 42);
    assert!(!state.is_focused());

    state.set_focused(true);
    assert!(state.is_focused());
}

#[test]
fn test_tab_view_render() {
    let tabs = vec![Tab::new("Tab 1"), Tab::new("Tab 2"), Tab::new("Tab 3")];
    let state = TabViewState::new(tabs.len());
    let tab_view = TabView::new(&tabs, &state);

    let (cells, regions) = tab_view.tab_bar(Rect::new(0, 0, 50, 10));
    assert!(!cells.is_empty());
    assert_eq!(regions.len(), 3);
    assert_eq!(regions[0].1, TabViewAction::TabClick(0));
}

fn key(code: KeyCode) -> KeyEvent {
    KeyEvent::new(code, KeyModifiers::none())
}

#[test]
fn test_key_handling_horizontal() {
    let mut state = TabViewState::new(5);

    assert!(handle_tab_view_key(&mut state, &key(KeyCode::Right), TabPosition::Top));
    assert_eq!(state.selected_index, 1);

    assert!(handle_tab_view_key(&mut state, &key(KeyCode::Left), TabPosition::Top));
    assert_eq!(state.selected_index, 0);

    state.select(3);
    assert!(handle_tab_view_key(&mut state, &key(KeyCode::Home), TabPosition::Top));
    assert_eq!(state.selected_index, 0);

    assert!(handle_tab_view_key(&mut state, &key(KeyCode::End), TabPosition::Top));
    assert_eq!(state.selected_index, 4);
}

#[test]
fn test_key_handling_vertical() {
    let mut state = TabViewState::new(5);

    assert!(handle_tab_view_key(&mut state, &key(KeyCode::Down), TabPosition::Left));
    assert_eq!(state.selected_index, 1);

    assert!(handle_tab_view_key(&mut state, &key(KeyCode::Up), TabPosition::Left));
    assert_eq!(state.selected_index, 0);
}

#[test]
fn test_number_key_selection() {
    let mut state = TabViewState::new(5);

    assert!(handle_tab_view_key(&mut state, &key(KeyCode::Char('3')), TabPosition::Top));
    assert_eq!(state.selected_index, 2);

    assert!(handle_tab_view_key(&mut state, &key(KeyCode::Char('1')), TabPosition::Top));
    assert_eq!(state.selected_index, 0);
}

#[test]
fn test_focus_toggle_with_enter() {
    let mut state = TabViewState::new(3);
    assert!(state.tab_bar_focused);

    assert!(handle_tab_view_key(&mut state, &key(KeyCode::Enter), TabPosition::Top));
    assert!(!state.tab_bar_focused);

    assert!(handle_tab_view_key(&mut state, &key(KeyCode::Esc), TabPosition::Top));
    assert!(state.tab_bar_focused);
}

#[test]
fn horizontal_regions_are_adjacent() {
    let tabs = vec![Tab::new("A"), Tab::new("BB")];
    let state = TabViewState::new(tabs.len());
    let view = TabView::new(&tabs, &state);
    let (_, regions) = view.horizontal_bar(Rect::new(0, 0, 40, 1));
    assert_eq!(regions.len(), 2);
    assert_eq!(regions[0].0.x, 0);
    // the selected tab carries the indicator: "▸ A "
    assert_eq!(regions[0].0.width, 4);
    assert!(regions[1].0.x >= 4);
    assert_eq!(regions[1].0.width, 4);
}

#[test]
fn layout_splits_bar_and_content() {
    let tabs = vec![Tab::new("A"), Tab::new("B")];
    let state = TabViewState::new(tabs.len());
    let area = Rect::new(0, 0, 50, 10);

    let view = TabView::new(&tabs, &state);
    assert_eq!(view.layout(area), (Rect::new(0, 0, 50, 1), Rect::new(0, 1, 50, 9)));

    let view = TabView::new(&tabs, &state).style(TabViewStyle::bottom());
    assert_eq!(view.layout(area), (Rect::new(0, 9, 50, 1), Rect::new(0, 0, 50, 9)));

    let view = TabView::new(&tabs, &state).style(TabViewStyle::left().tab_width(16));
    assert_eq!(view.layout(area), (Rect::new(0, 0, 16, 10), Rect::new(16, 0, 34, 10)));
}

#[test]
fn tab_widths_are_checked_before_drawing() {
    let tab = Tab::new("Files").icon("📁").badge("3");
    assert_eq!(tab.checked_display_width(), Some(tab.display_width()));

    let tabs = vec![Tab::new("Tab 1"), Tab::new("Tab 2")];
    let state = TabViewState::new(tabs.len());
    let view = TabView::new(&tabs, &state);
    assert!(view.widths_fit());
    let checked = view.try_tab_bar(Rect::new(0, 0, 50, 1)).unwrap();
    let (cells, regions) = view.tab_bar(Rect::new(0, 0, 50, 1));
    assert_eq!(checked.1, regions);
    assert_eq!(checked.0.len(), cells.len());

    let label = "x".repeat(100);
    let many: Vec<Tab> = (0..1000).map(|_| Tab::new(&label)).collect();
    let state = TabViewState::new(many.len());
    let view = TabView::new(&many, &state);
    assert!(!view.widths_fit());
    assert!(view.try_tab_bar(Rect::new(0, 0, 50, 1)).is_none());
}
