use lumr::window::{EventAction, EventLoopState, WindowEvent};

#[test]
fn close_request_for_this_window_exits() {
    let mut state = EventLoopState::new();
    let action = state.handle_event(&WindowEvent::CloseRequested { matches_window: true });
    assert_eq!(action, EventAction::Exit);
}

#[test]
fn close_request_for_another_window_is_ignored() {
    let mut state = EventLoopState::new();
    let action = state.handle_event(&WindowEvent::CloseRequested { matches_window: false });
    assert_eq!(action, EventAction::Wait);
    assert!(!state.window_resized);
}

#[test]
fn resize_is_remembered_until_the_next_frame_runs() {
    let mut state = EventLoopState::new();
    assert_eq!(state.handle_event(&WindowEvent::Resized), EventAction::Wait);
    assert!(state.window_resized);
    assert_eq!(state.handle_event(&WindowEvent::Other), EventAction::Wait);
    assert!(state.window_resized);
    let action = state.handle_event(&WindowEvent::MainEventsCleared);
    assert_eq!(action, EventAction::RunFrame { window_resized: true });
    assert!(!state.window_resized);
}

#[test]
fn a_frame_without_a_prior_resize_reports_none() {
    let mut state = EventLoopState::new();
    let action = state.handle_event(&WindowEvent::MainEventsCleared);
    assert_eq!(action, EventAction::RunFrame { window_resized: false });
    let action = state.handle_event(&WindowEvent::MainEventsCleared);
    assert_eq!(action, EventAction::RunFrame { window_resized: false });
}
