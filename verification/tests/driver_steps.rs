use gui_demo::driver::{step, Action, AppEvent, Phase};

#[test]
fn resumed_initializes_exactly_once() {
    let (p1, a1) = step(Phase::Uninitialized, AppEvent::Resumed);
    assert_eq!(p1, Phase::Running);
    assert_eq!(a1, Action::Initialize);
    // a second resume while running does not re-acquire resources
    let (p2, a2) = step(p1, AppEvent::Resumed);
    assert_eq!(p2, Phase::Running);
    assert_eq!(a2, Action::Ignore);
}

#[test]
fn close_request_exits_while_running() {
    assert_eq!(
        step(Phase::Running, AppEvent::CloseRequested),
        (Phase::Running, Action::Exit)
    );
}

#[test]
fn redraw_request_renders_one_frame() {
    assert_eq!(
        step(Phase::Running, AppEvent::RedrawRequested),
        (Phase::Running, Action::RenderFrame)
    );
}

#[test]
fn other_events_are_ignored() {
    assert_eq!(
        step(Phase::Running, AppEvent::Other),
        (Phase::Running, Action::Ignore)
    );
    assert_eq!(
        step(Phase::Uninitialized, AppEvent::Other),
        (Phase::Uninitialized, Action::Ignore)
    );
    assert_eq!(
        step(Phase::Uninitialized, AppEvent::RedrawRequested),
        (Phase::Uninitialized, Action::Ignore)
    );
    assert_eq!(
        step(Phase::Uninitialized, AppEvent::CloseRequested),
        (Phase::Uninitialized, Action::Ignore)
    );
}
