use ratatui_interact::components::breadcrumb::{
    handle_breadcrumb_key, Breadcrumb, BreadcrumbAction, BreadcrumbItem, BreadcrumbState,
    BreadcrumbStyle,
};
use ratatui_interact::event::{KeyCode, KeyEvent};
use ratatui_interact::{ClickRegion, Rect};

#[test]
fn test_breadcrumb_item_creation() {
    let item = BreadcrumbItem::new("home", "Home").icon("🏠").enabled(true);

    assert_eq!(item.id, "home");
    assert_eq!(item.label, "Home");
    assert_eq!(item.icon, Some("🏠".to_string()));
    assert!(item.enabled);
}

#[test]
fn test_breadcrumb_state_navigation() {
    let items = vec![
        BreadcrumbItem::new("a", "A"),
        BreadcrumbItem::new("b", "B"),
        BreadcrumbItem::new("c", "C"),
    ];
    let mut state = BreadcrumbState::new(items);

    assert!(state.selected_index.is_none());

    state.select_next();
    assert_eq!(state.selected_index, Some(0));

    state.select_next();
    assert_eq!(state.selected_index, Some(1));

    state.select_prev();
    assert_eq!(state.selected_index, Some(0));

    state.select_prev();
    assert_eq!(state.selected_index, Some(0));

    state.select_last();
    assert_eq!(state.selected_index, Some(2));

    state.select_first();
    assert_eq!(state.selected_index, Some(0));
}

#[test]
fn test_breadcrumb_state_select_by_id() {
    let items = vec![
        BreadcrumbItem::new("home", "Home"),
        BreadcrumbItem::new("settings", "Settings"),
        BreadcrumbItem::new("profile", "Profile"),
    ];
    let mut state = BreadcrumbState::new(items);

    state.select_by_id("settings");
    assert_eq!(state.selected_index, Some(1));

    state.select_by_id("nonexistent");
    assert_eq!(state.selected_index, Some(1));
}

#[test]
fn test_breadcrumb_state_push_pop() {
    let mut state = BreadcrumbState::empty();
    assert!(state.is_empty());

    state.push(BreadcrumbItem::new("a", "A"));
    state.push(BreadcrumbItem::new("b", "B"));
    assert_eq!(state.len(), 2);

    state.select_last();
    assert_eq!(state.selected_index, Some(1));

    let popped = state.pop();
    assert!(popped.is_some());
    assert_eq!(popped.unwrap().id, "b");
    assert_eq!(state.selected_index, Some(0));
}

#[test]
fn test_breadcrumb_state_clear() {
    let items = vec![BreadcrumbItem::new("a", "A"), BreadcrumbItem::new("b", "B")];
    let mut state = BreadcrumbState::new(items);
    state.select(1);

    state.clear();
    assert!(state.is_empty());
    assert!(state.selected_index.is_none());
}

#[test]
fn test_breadcrumb_style_presets() {
    let default = BreadcrumbStyle::default();
    assert_eq!(default.separator, " > ");

    let slash = BreadcrumbStyle::slash();
    assert_eq!(slash.separator, " / ");

    let chevron = BreadcrumbStyle::chevron();
    assert_eq!(chevron.separator, " › ");

    let arrow = BreadcrumbStyle::arrow();
    assert_eq!(arrow.separator, " → ");
}

#[test]
fn test_breadcrumb_style_builder() {
    let style = BreadcrumbStyle::default()
        .separator(" | ")
        .collapse_threshold(5)
        .visible_ends(2, 3)
        .padding(2, 2);

    assert_eq!(style.separator, " | ");
    assert_eq!(style.collapse_threshold, 5);
    assert_eq!(style.visible_start, 2);
    assert_eq!(style.visible_end, 3);
    assert_eq!(style.padding, (2, 2));
}

fn numbered_items(n: usize) -> Vec<BreadcrumbItem> {
    (0..n)
        .map(|i| BreadcrumbItem::new(&format!("item{}", i), &format!("Item {}", i)))
        .collect()
}

#[test]
fn test_breadcrumb_collapse_logic() {
    let state = BreadcrumbState::new(numbered_items(6));
    let breadcrumb = Breadcrumb::new(&state);

    let visible = breadcrumb.visible_elements();
    assert_eq!(visible.len(), 4);

    let mut expanded_state = state.clone();
    expanded_state.expanded = true;
    let expanded_breadcrumb = Breadcrumb::new(&expanded_state);
    let visible = expanded_breadcrumb.visible_elements();
    assert_eq!(visible.len(), 6);
}

#[test]
fn test_breadcrumb_no_collapse() {
    let state = BreadcrumbState::new(numbered_items(3));
    let breadcrumb = Breadcrumb::new(&state);

    let visible = breadcrumb.visible_elements();
    assert_eq!(visible.len(), 3);
}

#[test]
fn test_handle_breadcrumb_key() {
    let items = vec![
        BreadcrumbItem::new("a", "A"),
        BreadcrumbItem::new("b", "B"),
        BreadcrumbItem::new("c", "C"),
    ];
    let mut state = BreadcrumbState::new(items);
    state.focused = true;

    let key = KeyEvent::from(KeyCode::Right);
    handle_breadcrumb_key(&key, &mut state);
    assert_eq!(state.selected_index, Some(0));

    handle_breadcrumb_key(&key, &mut state);
    assert_eq!(state.selected_index, Some(1));

    state.select(1);
    let key = KeyEvent::from(KeyCode::Enter);
    let action = handle_breadcrumb_key(&key, &mut state);
    assert_eq!(action, Some(BreadcrumbAction::Navigate("b".to_string())));
}

#[test]
fn test_handle_breadcrumb_key_disabled() {
    let items = vec![BreadcrumbItem::new("a", "A")];
    let mut state = BreadcrumbState::new(items);
    state.enabled = false;

    let key = KeyEvent::from(KeyCode::Right);
    let action = handle_breadcrumb_key(&key, &mut state);
    assert!(action.is_none());
}

#[test]
fn test_calculate_width() {
    let items = vec![
        BreadcrumbItem::new("home", "Home"),
        BreadcrumbItem::new("settings", "Settings"),
    ];
    let state = BreadcrumbState::new(items);
    let breadcrumb = Breadcrumb::new(&state);

    let width = breadcrumb.calculate_width();
    assert_eq!(width, 17);
}

#[test]
fn breadcrumb_test_click_region_contains() {
    let region = ClickRegion::new(
        Rect::new(10, 5, 20, 1),
        BreadcrumbAction::Navigate("test".to_string()),
    );

    assert!(region.contains(10, 5));
    assert!(region.contains(29, 5));
    assert!(!region.contains(9, 5));
    assert!(!region.contains(30, 5));
}

#[test]
fn click_regions_follow_the_line() {
    let items = vec![
        BreadcrumbItem::new("home", "Home"),
        BreadcrumbItem::new("settings", "Settings"),
    ];
    let state = BreadcrumbState::new(items);
    let breadcrumb = Breadcrumb::new(&state);
    let regions = breadcrumb.click_regions(Rect::new(0, 0, 40, 1));
    assert_eq!(regions.len(), 2);
    assert_eq!(regions[0].area, Rect::new(1, 0, 4, 1));
    assert_eq!(regions[0].data, BreadcrumbAction::Navigate("home".to_string()));
    assert_eq!(regions[1].area, Rect::new(8, 0, 8, 1));
}

#[test]
fn drawn_text_lies_in_its_click_region() {
    let items = vec![
        BreadcrumbItem::new("home", "Home"),
        BreadcrumbItem::new("settings", "Settings"),
    ];
    let state = BreadcrumbState::new(items);
    let breadcrumb = Breadcrumb::new(&state);
    let spans = breadcrumb.spans();
    let texts: Vec<&str> = spans.iter().map(|(t, _)| t.as_str()).collect();
    assert_eq!(texts, vec![" ", "Home", " > ", "Settings"]);
    let line: String = texts.concat();
    let regions = breadcrumb.click_regions(Rect::new(0, 0, 40, 1));
    for (region, label) in regions.iter().zip(["Home", "Settings"]) {
        let start = region.area.x as usize;
        let end = start + region.area.width as usize;
        assert_eq!(&line[start..end], label);
    }
}
