use ratatui_interact::event::{KeyEvent, MouseEvent};
use ratatui_interact::{Container, ContainerAction, EventResult, PopupContainer, Rect};

#[test]
fn test_event_result_consumed() {
    assert!(EventResult::Consumed.is_consumed());
    assert!(EventResult::Action(ContainerAction::Close).is_consumed());
    assert!(!EventResult::NotHandled.is_consumed());
}

#[test]
fn test_event_result_action() {
    assert!(!EventResult::Consumed.is_action());
    assert!(!EventResult::NotHandled.is_action());
    assert!(EventResult::Action(ContainerAction::Close).is_action());

    let result = EventResult::Action(ContainerAction::Submit);
    assert_eq!(result.action(), Some(&ContainerAction::Submit));

    assert_eq!(EventResult::Consumed.action(), None);
}

#[test]
fn test_container_action_types() {
    assert!(ContainerAction::Close.is_close());
    assert!(!ContainerAction::Close.is_submit());

    assert!(ContainerAction::Submit.is_submit());
    assert!(!ContainerAction::Submit.is_close());

    let custom = ContainerAction::custom("my_action");
    assert_eq!(custom.custom_name(), Some("my_action"));
    assert!(!custom.is_close());
    assert!(!custom.is_submit());

    assert_eq!(ContainerAction::Close.custom_name(), None);
}

struct TestContainer {
    preferred_width: u16,
    preferred_height: u16,
}

impl Container for TestContainer {
    type State = ();

    fn render(&self, _frame: &mut ratatui::Frame, _area: Rect, _state: &Self::State) {}

    fn handle_key(&self, _key: KeyEvent, _state: &mut Self::State) -> EventResult {
        EventResult::NotHandled
    }

    fn handle_mouse(&self, _mouse: MouseEvent, _state: &mut Self::State) -> EventResult {
        EventResult::NotHandled
    }

    fn preferred_size(&self) -> (u16, u16) {
        (self.preferred_width, self.preferred_height)
    }
}

impl PopupContainer for TestContainer {}

#[test]
fn test_popup_area_centered() {
    let container = TestContainer { preferred_width: 40, preferred_height: 20 };

    let screen = Rect::new(0, 0, 100, 50);
    let area = container.popup_area(screen);

    assert_eq!(area.width, 40);
    assert_eq!(area.height, 20);
    assert_eq!(area.x, 30);
    assert_eq!(area.y, 15);
}

#[test]
fn test_popup_area_constrained() {
    let container = TestContainer { preferred_width: 200, preferred_height: 100 };

    let screen = Rect::new(0, 0, 80, 24);
    let area = container.popup_area(screen);

    assert_eq!(area.width, 76);
    assert_eq!(area.height, 20);
}

#[test]
fn test_popup_defaults() {
    let container = TestContainer { preferred_width: 40, preferred_height: 20 };

    assert!(container.close_on_escape());
    assert!(container.close_on_outside_click());
    assert_eq!(container.screen_margin(), 2);
}

#[test]
fn test_popup_area_anchored() {
    let container = TestContainer { preferred_width: 20, preferred_height: 10 };

    let screen = Rect::new(0, 0, 80, 24);

    let area = container.popup_area_anchored(screen, Some(40), Some(10));
    assert_eq!(area.x, 30);
    assert_eq!(area.y, 11);

    let area = container.popup_area_anchored(screen, Some(40), Some(20));
    assert_eq!(area.y, 9);
}
