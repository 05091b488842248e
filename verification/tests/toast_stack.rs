use ratatui_interact::components::toast_stack::{
    ToastDismissPolicy, ToastOrder, ToastPlacement, ToastStack, ToastStackLayout, ToastStackState,
};
use ratatui_interact::Rect;

#[test]
fn state_push_and_dismiss() {
    let mut s = ToastStackState::new();
    s.set_capacity(10);

    let a = s.push_manual("A");
    let b = s.push_auto("B", 100_000);
    assert_eq!(s.len(), 2);

    assert!(s.dismiss(a));
    assert_eq!(s.len(), 1);
    assert!(!s.dismiss(a));

    assert!(s.dismiss(b));
    assert!(s.is_empty());
}

#[test]
fn state_clear_expired_at() {
    let mut s = ToastStackState::new();
    s.set_capacity(10);

    let now = 1_000;
    let id = s.push_with_policy("Auto", ToastDismissPolicy::Auto { duration_ms: 10 });
    if let Some(item) = s.items_mut().iter_mut().find(|t| t.id == id) {
        item.created_at_ms = now;
        item.expires_at_ms = Some(now + 10);
    }

    s.clear_expired_at(now + 9);
    assert_eq!(s.len(), 1);
    s.clear_expired_at(now + 10);
    assert_eq!(s.len(), 0);
}

#[test]
fn layout_hit_test() {
    let mut s = ToastStackState::new();
    s.set_capacity(10);
    let id = s.push_manual("Hello world");

    let stack = ToastStack::new(&s);
    let area = Rect::new(0, 0, 100, 40);
    let rects = stack.compute_rects(area);
    assert_eq!(rects.len(), 1);
    let r = rects[0].1;
    assert_eq!(rects[0].0, id);

    assert_eq!(stack.hit_test(area, r.x, r.y), Some(id));
    assert_eq!(stack.hit_test(area, r.x + r.width - 1, r.y + r.height - 1), Some(id));
    assert_eq!(stack.hit_test(area, r.x.saturating_sub(1), r.y), None);
}

#[test]
fn capacity_drops_oldest() {
    let mut s = ToastStackState::new();
    s.set_capacity(2);
    let a = s.push_manual("a");
    let b = s.push_manual("b");
    let c = s.push_manual("c");
    assert_eq!(s.len(), 2);
    let ids: Vec<u64> = s.items().iter().map(|t| t.id).collect();
    assert_eq!(ids, vec![b, c]);
    assert!(a < b && b < c);
    s.set_capacity(0);
    assert_eq!(s.len(), 1);
    assert_eq!(s.items()[0].id, c);
}

#[test]
fn dismiss_top_removes_newest() {
    let mut s = ToastStackState::new();
    s.push_manual("a");
    let b = s.push_manual("b");
    assert!(s.dismiss_top());
    assert!(!s.dismiss(b));
    assert_eq!(s.len(), 1);
    s.dismiss_all();
    assert!(!s.dismiss_top());
}

#[test]
fn newest_first_top_stacking() {
    let mut s = ToastStackState::new();
    let a = s.push_manual("first");
    let b = s.push_manual("second");
    let stack = ToastStack::new(&s);
    let rects = stack.compute_rects(Rect::new(0, 0, 100, 40));
    assert_eq!(rects.len(), 2);
    assert_eq!(rects[0].0, b);
    assert_eq!(rects[1].0, a);
    // margin 1 + edge offset 3, then height 3 and a gap of 1
    assert_eq!(rects[0].1, Rect::new(40, 4, 20, 3));
    assert_eq!(rects[1].1, Rect::new(40, 8, 20, 3));
}

#[test]
fn bottom_right_oldest_first() {
    let mut s = ToastStackState::new();
    let a = s.push_manual("first");
    let b = s.push_manual("second");
    let layout = ToastStackLayout {
        placement: ToastPlacement::BottomRight,
        order: ToastOrder::OldestFirst,
        ..ToastStackLayout::default()
    };
    let stack = ToastStack::new(&s).layout(layout);
    let rects = stack.compute_rects(Rect::new(0, 0, 100, 40));
    assert_eq!(rects[0].0, a);
    assert_eq!(rects[1].0, b);
    assert_eq!(rects[0].1, Rect::new(79, 36, 20, 3));
    assert_eq!(rects[1].1, Rect::new(79, 32, 20, 3));
}

#[test]
fn no_rects_in_empty_area_and_stops_when_full() {
    let mut s = ToastStackState::new();
    s.push_manual("x");
    s.push_manual("y");
    let stack = ToastStack::new(&s);
    assert!(stack.compute_rects(Rect::new(0, 0, 0, 10)).is_empty());
    let rects = stack.compute_rects(Rect::new(0, 0, 50, 8));
    assert_eq!(rects.len(), 1);
}

#[test]
fn stacked_rects_never_overlap() {
    let mut s = ToastStackState::new();
    s.push_manual("a short one");
    s.push_manual("a much longer message that wraps over several rows of the toast");
    s.push_manual("third");
    for placement in [ToastPlacement::TopCenter, ToastPlacement::BottomLeft] {
        let layout = ToastStackLayout { placement, gap_y: 0, ..ToastStackLayout::default() };
        let stack = ToastStack::new(&s).layout(layout);
        let rects = stack.compute_rects(Rect::new(0, 0, 40, 30));
        assert_eq!(rects.len(), 3);
        for j in 0..rects.len() {
            for k in j + 1..rects.len() {
                let (a, b) = (rects[j].1, rects[k].1);
                assert!(a.y + a.height <= b.y || b.y + b.height <= a.y);
                assert!(b.y + b.height <= 30);
            }
        }
    }
}

#[test]
fn pushed_ids_are_fresh_and_increasing() {
    let mut s = ToastStackState::new();
    s.set_capacity(2);
    let mut last = 0;
    for m in ["a", "b", "c", "d"] {
        let id = s.push_manual(m);
        assert!(id > last);
        assert!(s.items().iter().filter(|t| t.id == id).count() == 1);
        last = id;
    }
    assert_eq!(s.len(), 2);
}
