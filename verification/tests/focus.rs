use ratatui_interact::FocusManager;

#[derive(Clone, PartialEq, Eq, Hash, Debug)]
enum TestElement {
    First,
    Second,
    Third,
}

#[test]
fn test_new_manager() {
    let manager: FocusManager<usize> = FocusManager::new();
    assert!(manager.is_empty());
    assert_eq!(manager.len(), 0);
    assert_eq!(manager.current(), None);
    assert!(!manager.has_focus());
}

#[test]
fn test_register_auto_focus() {
    let mut manager = FocusManager::new();
    manager.register(TestElement::First);

    assert_eq!(manager.len(), 1);
    assert!(manager.has_focus());
    assert_eq!(manager.current(), Some(&TestElement::First));
}

#[test]
fn test_register_duplicates_ignored() {
    let mut manager = FocusManager::new();
    manager.register(TestElement::First);
    manager.register(TestElement::First);

    assert_eq!(manager.len(), 1);
}

#[test]
fn test_register_all() {
    let mut manager = FocusManager::new();
    manager.register_all(vec![TestElement::First, TestElement::Second, TestElement::Third]);

    assert_eq!(manager.len(), 3);
    assert_eq!(manager.current(), Some(&TestElement::First));
}

#[test]
fn test_next_navigation() {
    let mut manager = FocusManager::new();
    manager.register_all(vec![TestElement::First, TestElement::Second, TestElement::Third]);

    assert_eq!(manager.current(), Some(&TestElement::First));

    manager.next();
    assert_eq!(manager.current(), Some(&TestElement::Second));

    manager.next();
    assert_eq!(manager.current(), Some(&TestElement::Third));

    manager.next();
    assert_eq!(manager.current(), Some(&TestElement::First));
}

#[test]
fn test_prev_navigation() {
    let mut manager = FocusManager::new();
    manager.register_all(vec![TestElement::First, TestElement::Second, TestElement::Third]);

    manager.prev();
    assert_eq!(manager.current(), Some(&TestElement::Third));

    manager.prev();
    assert_eq!(manager.current(), Some(&TestElement::Second));

    manager.prev();
    assert_eq!(manager.current(), Some(&TestElement::First));
}

#[test]
fn test_set_focus() {
    let mut manager = FocusManager::new();
    manager.register_all(vec![TestElement::First, TestElement::Second, TestElement::Third]);

    manager.set(TestElement::Third);
    assert_eq!(manager.current(), Some(&TestElement::Third));

    manager.set(TestElement::First);
    assert_eq!(manager.current(), Some(&TestElement::First));
}

#[test]
fn test_set_index() {
    let mut manager = FocusManager::new();
    manager.register_all(vec![TestElement::First, TestElement::Second, TestElement::Third]);

    manager.set_index(2);
    assert_eq!(manager.current(), Some(&TestElement::Third));
    assert_eq!(manager.current_index(), Some(2));

    manager.set_index(10);
    assert_eq!(manager.current(), Some(&TestElement::Third));
}

#[test]
fn test_first_last() {
    let mut manager = FocusManager::new();
    manager.register_all(vec![TestElement::First, TestElement::Second, TestElement::Third]);

    manager.last();
    assert_eq!(manager.current(), Some(&TestElement::Third));

    manager.first();
    assert_eq!(manager.current(), Some(&TestElement::First));
}

#[test]
fn test_unfocus() {
    let mut manager = FocusManager::new();
    manager.register(TestElement::First);

    assert!(manager.has_focus());

    manager.unfocus();
    assert!(!manager.has_focus());
    assert_eq!(manager.current(), None);
}

#[test]
fn test_is_focused() {
    let mut manager = FocusManager::new();
    manager.register_all(vec![TestElement::First, TestElement::Second]);

    assert!(manager.is_focused(&TestElement::First));
    assert!(!manager.is_focused(&TestElement::Second));

    manager.next();
    assert!(!manager.is_focused(&TestElement::First));
    assert!(manager.is_focused(&TestElement::Second));
}

#[test]
fn focus_test_clear() {
    let mut manager = FocusManager::new();
    manager.register_all(vec![TestElement::First, TestElement::Second]);

    manager.clear();
    assert!(manager.is_empty());
    assert!(!manager.has_focus());
}

#[test]
fn test_remove_unfocused() {
    let mut manager = FocusManager::new();
    manager.register_all(vec![TestElement::First, TestElement::Second, TestElement::Third]);

    let removed = manager.remove(&TestElement::Third);
    assert!(removed);
    assert_eq!(manager.len(), 2);
    assert_eq!(manager.current(), Some(&TestElement::First));
}

#[test]
fn test_remove_focused() {
    let mut manager = FocusManager::new();
    manager.register_all(vec![TestElement::First, TestElement::Second, TestElement::Third]);

    let removed = manager.remove(&TestElement::First);
    assert!(removed);
    assert_eq!(manager.len(), 2);
    assert_eq!(manager.current(), Some(&TestElement::Second));
}

#[test]
fn test_remove_last_focused() {
    let mut manager = FocusManager::new();
    manager.register_all(vec![TestElement::First, TestElement::Second, TestElement::Third]);
    manager.last();

    let removed = manager.remove(&TestElement::Third);
    assert!(removed);
    assert_eq!(manager.current(), Some(&TestElement::Second));
}

#[test]
fn test_empty_navigation() {
    let mut manager: FocusManager<usize> = FocusManager::new();

    manager.next();
    manager.prev();
    manager.first();
    manager.last();

    assert!(!manager.has_focus());
}

#[test]
fn test_integer_focus_manager() {
    let mut manager: FocusManager<usize> = FocusManager::new();
    manager.register_all(vec![0, 1, 2, 3, 4]);

    assert_eq!(manager.current(), Some(&0));
    manager.next();
    assert_eq!(manager.current(), Some(&1));
}

#[test]
fn focus_remove_missing_element() {
    let mut manager: FocusManager<usize> = FocusManager::new();
    manager.register_all(vec![3, 4]);
    assert!(!manager.remove(&9));
    assert_eq!(manager.len(), 2);
    assert_eq!(manager.current(), Some(&3));
}

#[test]
fn focus_next_then_prev_returns() {
    let mut manager: FocusManager<usize> = FocusManager::new();
    manager.register_all(vec![7, 8, 9]);
    manager.set_index(2);
    manager.next();
    assert_eq!(manager.current_index(), Some(0));
    manager.prev();
    assert_eq!(manager.current_index(), Some(2));
}
