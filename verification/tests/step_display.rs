use ratatui_interact::components::step_display::{
    calculate_height, Step, StepDisplay, StepDisplayState, StepDisplayStyle, StepStatus,
};

#[test]
fn test_step_status() {
    assert_eq!(StepStatus::Pending.icon(), "[ ]");
    assert_eq!(StepStatus::Running.icon(), "[▶]");
    assert_eq!(StepStatus::Completed.icon(), "[✓]");
}

#[test]
fn test_step_progress() {
    let step = Step::new("Test").with_sub_steps(vec!["A", "B", "C"]);
    let (completed, total) = step.sub_step_progress();
    assert_eq!(completed, 0);
    assert_eq!(total, 3);
}

#[test]
fn test_state_operations() {
    let steps = vec![Step::new("Test")];
    let mut state = StepDisplayState::new(steps);

    state.start_step(0);
    assert_eq!(state.steps[0].status, StepStatus::Running);
    assert!(state.steps[0].expanded);

    state.add_output(0, "Line 1");
    assert_eq!(state.steps[0].output.len(), 1);

    state.complete_step(0);
    assert_eq!(state.steps[0].status, StepStatus::Completed);
}

#[test]
fn completed_steps_and_current_step() {
    let steps = vec![Step::new("Step 1"), Step::new("Step 2"), Step::new("Step 3"), Step::new("Step 4")];
    let mut state = StepDisplayState::new(steps);
    assert_eq!(state.completed_steps(), 0);
    assert_eq!(state.current_step(), 0);
    state.complete_step(0);
    state.complete_step(1);
    assert_eq!(state.completed_steps(), 2);
    assert_eq!(state.current_step(), 2);
    state.skip_step(2);
    assert_eq!(state.steps[2].status, StepStatus::Skipped);
}

#[test]
fn sub_steps_progress_and_height() {
    let step = Step::new("Build").with_sub_steps(vec!["a", "b"]);
    let mut state = StepDisplayState::new(vec![step, Step::new("Ship")]);
    state.complete_sub_step(0, 0);
    assert_eq!(state.steps[0].sub_step_progress(), (1, 2));
    let style = StepDisplayStyle::default();
    let h = calculate_height(&state, &style);
    assert!(h >= 2);
}

#[test]
fn height_is_the_number_of_lines_drawn() {
    let step = Step::new("Build").with_sub_steps(vec!["a", "b"]);
    let mut state = StepDisplayState::new(vec![step, Step::new("Test"), Step::new("Ship")]);
    state.start_step(0);
    state.add_output(1, "compiling");
    state.toggle_expanded(1);
    let style = StepDisplayStyle::default();
    let display = StepDisplay::new(&state).style(style.clone());
    let lines = display.build_lines(ratatui_interact::Rect::new(0, 0, 40, 50));
    assert_eq!(calculate_height(&state, &style) as usize, lines.len());
}
