use ratatui_interact::components::marquee::{
    bounce_marquee, continuous_marquee, MarqueeMode, MarqueeState, MarqueeStyle, MarqueeText,
    ScrollDir,
};

#[test]
fn test_marquee_state_new() {
    let state = MarqueeState::new();
    assert_eq!(state.offset, 0);
    assert_eq!(state.direction, ScrollDir::Left);
    assert_eq!(state.paused_ticks, 0);
}

#[test]
fn test_marquee_state_reset() {
    let mut state = MarqueeState::new();
    state.offset = 10;
    state.direction = ScrollDir::Right;
    state.paused_ticks = 5;

    state.reset();

    assert_eq!(state.offset, 0);
    assert_eq!(state.direction, ScrollDir::Left);
    assert_eq!(state.paused_ticks, 0);
}

#[test]
fn test_marquee_state_tick_short_text() {
    let mut state = MarqueeState::new();
    let style = MarqueeStyle::default();

    state.tick(5, 10, &style);
    assert_eq!(state.offset, 0);
}

#[test]
fn test_marquee_state_tick_continuous() {
    let mut state = MarqueeState::new();
    let style = MarqueeStyle::default()
        .mode(MarqueeMode::Continuous)
        .scroll_speed(1);

    state.tick(20, 10, &style);
    assert_eq!(state.offset, 1);

    state.tick(20, 10, &style);
    assert_eq!(state.offset, 2);
}

#[test]
fn test_marquee_state_tick_bounce() {
    let mut state = MarqueeState::new();
    let style = MarqueeStyle::default()
        .mode(MarqueeMode::Bounce)
        .scroll_speed(5)
        .pause_at_edge(0);

    state.tick(20, 10, &style);
    assert_eq!(state.offset, 5);
    assert_eq!(state.direction, ScrollDir::Left);

    state.tick(20, 10, &style);
    assert_eq!(state.offset, 10);
    assert_eq!(state.direction, ScrollDir::Right);
}

#[test]
fn test_marquee_state_pause() {
    let mut state = MarqueeState::new();
    let style = MarqueeStyle::default()
        .mode(MarqueeMode::Bounce)
        .scroll_speed(10)
        .pause_at_edge(2);

    state.tick(15, 10, &style);
    assert_eq!(state.offset, 5);
    assert_eq!(state.paused_ticks, 2);
    assert_eq!(state.direction, ScrollDir::Right);

    state.tick(15, 10, &style);
    assert_eq!(state.offset, 5);
    assert_eq!(state.paused_ticks, 1);

    state.tick(15, 10, &style);
    assert_eq!(state.offset, 5);
    assert_eq!(state.paused_ticks, 0);

    state.tick(15, 10, &style);
    assert_eq!(state.offset, 0);
}

#[test]
fn test_marquee_style_default() {
    let style = MarqueeStyle::default();
    assert_eq!(style.scroll_speed, 1);
    assert_eq!(style.pause_at_edge, 3);
    assert_eq!(style.mode, MarqueeMode::Continuous);
    assert_eq!(style.separator, "   ");
    assert_eq!(style.ellipsis, "...");
}

#[test]
fn test_marquee_style_builder() {
    let style = MarqueeStyle::new()
        .scroll_speed(2)
        .pause_at_edge(5)
        .mode(MarqueeMode::Bounce)
        .separator(" | ")
        .ellipsis("…");

    assert_eq!(style.scroll_speed, 2);
    assert_eq!(style.pause_at_edge, 5);
    assert_eq!(style.mode, MarqueeMode::Bounce);
    assert_eq!(style.separator, " | ");
    assert_eq!(style.ellipsis, "…");
}

#[test]
fn test_marquee_render_fits() {
    let state = MarqueeState::new();
    let marquee = MarqueeText::new("Hello", &state);

    let content = marquee.line(20);
    assert!(content.starts_with("Hello"));
}

#[test]
fn test_marquee_render_scroll() {
    let mut state = MarqueeState::new();
    state.offset = 5;

    let style = MarqueeStyle::default().mode(MarqueeMode::Bounce);
    let marquee = MarqueeText::new("Hello World This Is Long", &state).style(style);

    let content = marquee.line(10);
    assert!(content.starts_with(" World T") || content.starts_with("World Th"));
}

#[test]
fn test_marquee_render_static() {
    let state = MarqueeState::new();
    let style = MarqueeStyle::default().mode(MarqueeMode::Static);
    let marquee = MarqueeText::new("This is a very long text", &state).style(style);

    let content = marquee.line(10);
    assert!(content.contains("..."));
}

#[test]
fn test_marquee_render_unicode() {
    let state = MarqueeState::new();
    let marquee = MarqueeText::new("日本語テスト", &state);

    let _ = marquee.line(10);
}

#[test]
fn test_extract_visible_slice() {
    let slice = MarqueeText::extract_visible_slice("Hello World", 0, 5);
    assert_eq!(slice, "Hello");

    let slice = MarqueeText::extract_visible_slice("Hello World", 6, 5);
    assert_eq!(slice, "World");

    let slice = MarqueeText::extract_visible_slice("Hi", 0, 5);
    assert_eq!(slice, "Hi   ");
}

#[test]
fn test_helper_functions() {
    let state1 = MarqueeState::new();
    let m1 = continuous_marquee("test", &state1);
    assert_eq!(m1.style.mode, MarqueeMode::Continuous);

    let state2 = MarqueeState::new();
    let m2 = bounce_marquee("test", &state2);
    assert_eq!(m2.style.mode, MarqueeMode::Bounce);
}

#[test]
fn bounce_stays_between_edges() {
    let mut state = MarqueeState::new();
    let style = MarqueeStyle::default().mode(MarqueeMode::Bounce).scroll_speed(3).pause_at_edge(1);
    for _ in 0..50 {
        state.tick(17, 10, &style);
        assert!(state.offset <= 7);
    }
}

#[test]
fn continuous_wraps_past_separator() {
    let mut state = MarqueeState::new();
    let style = MarqueeStyle::default().mode(MarqueeMode::Continuous).scroll_speed(4);
    state.offset = 21;
    state.tick(20, 10, &style);
    assert_eq!(state.offset, 2);
}

#[test]
fn continuous_line_wraps_text_around() {
    let mut state = MarqueeState::new();
    state.offset = 3;
    let marquee = MarqueeText::new("abcdefghij", &state).style(MarqueeStyle::default().separator(" | "));
    assert_eq!(marquee.line(8), "defghij ");
}

#[test]
fn looping_line_that_cannot_fill_its_viewport_is_refused() {
    let state = MarqueeState::new();
    let style = MarqueeStyle::default().separator("");
    let marquee = MarqueeText::new("中中", &state).style(style);
    assert_eq!(marquee.try_line(3), None);
    let fitting = MarqueeText::new("Hello World", &state);
    assert_eq!(fitting.try_line(5), Some(fitting.line(5)));
    assert_eq!(fitting.try_line(20), Some("Hello World         ".to_string()));
}
