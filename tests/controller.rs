use screen_cover::command::Command;
use screen_cover::controller::{Action, Controller, Input, OverlayState, Policy};

fn run(c: &mut Controller, inputs: &[Input]) -> Vec<Action> {
    inputs.iter().map(|i| c.handle(*i)).collect()
}

#[test]
fn new_controller_is_hidden() {
    let c = Controller::new(Policy::Lazy);
    assert_eq!(c.state(), OverlayState::Hidden);
    assert_eq!(c.window(), None);
}

#[test]
fn activate_twice_creates_one_window() {
    let mut c = Controller::new(Policy::Lazy);
    let acts = run(&mut c, &[Input::Command(Command::Activate), Input::Command(Command::Activate)]);
    assert_eq!(acts, vec![Action::Create(0), Action::Nothing]);
    assert_eq!(c.state(), OverlayState::Visible);
    assert_eq!(c.window(), Some(0));
}

#[test]
fn deactivate_twice_leaves_no_window() {
    let mut c = Controller::new(Policy::Lazy);
    c.handle(Input::Command(Command::Activate));
    let acts = run(&mut c, &[Input::Command(Command::Deactivate), Input::Command(Command::Deactivate)]);
    assert_eq!(acts, vec![Action::Destroy(0), Action::Nothing]);
    assert_eq!(c.state(), OverlayState::Hidden);
    assert_eq!(c.window(), None);
}

#[test]
fn deactivate_when_hidden_is_a_no_op() {
    let mut c = Controller::new(Policy::Eager);
    assert_eq!(c.handle(Input::Command(Command::Deactivate)), Action::Nothing);
    assert_eq!(c.state(), OverlayState::Hidden);
}

#[test]
fn close_request_hides_the_overlay() {
    let mut c = Controller::new(Policy::Lazy);
    c.handle(Input::Command(Command::Activate));
    assert_eq!(c.handle(Input::CloseRequested), Action::Destroy(0));
    assert_eq!(c.state(), OverlayState::Hidden);
    assert_eq!(c.handle(Input::CloseRequested), Action::Nothing);
}

#[test]
fn recovery_after_close_uses_a_fresh_handle() {
    let mut c = Controller::new(Policy::Lazy);
    let acts = run(
        &mut c,
        &[Input::Command(Command::Activate), Input::CloseRequested, Input::Command(Command::Activate)],
    );
    assert_eq!(acts, vec![Action::Create(0), Action::Destroy(0), Action::Create(1)]);
    assert_eq!(c.state(), OverlayState::Visible);
    assert_eq!(c.window(), Some(1));
}

#[test]
fn lazy_resume_creates_nothing() {
    let mut c = Controller::new(Policy::Lazy);
    assert_eq!(c.handle(Input::Resumed), Action::Nothing);
    assert_eq!(c.state(), OverlayState::Hidden);
}

#[test]
fn eager_resume_creates_the_window() {
    let mut c = Controller::new(Policy::Eager);
    assert_eq!(c.handle(Input::Resumed), Action::Create(0));
    assert_eq!(c.state(), OverlayState::Visible);
}

#[test]
fn activate_then_resume_gives_one_window() {
    let mut c = Controller::new(Policy::Eager);
    let acts = run(&mut c, &[Input::Command(Command::Activate), Input::Resumed]);
    assert_eq!(acts, vec![Action::Create(0), Action::Nothing]);
    assert_eq!(c.window(), Some(0));
}

#[test]
fn resume_then_activate_gives_one_window() {
    let mut c = Controller::new(Policy::Eager);
    let acts = run(&mut c, &[Input::Resumed, Input::Command(Command::Activate)]);
    assert_eq!(acts, vec![Action::Create(0), Action::Nothing]);
    assert_eq!(c.window(), Some(0));
}

#[test]
fn live_windows_match_the_handle() {
    let mut c = Controller::new(Policy::Eager);
    let inputs = [
        Input::Resumed,
        Input::Command(Command::Deactivate),
        Input::Command(Command::Activate),
        Input::CloseRequested,
        Input::CloseRequested,
        Input::Command(Command::Activate),
        Input::Resumed,
        Input::Command(Command::Activate),
    ];
    let mut live: Vec<u64> = Vec::new();
    for i in inputs {
        match c.handle(i) {
            Action::Create(id) => live.push(id),
            Action::Destroy(id) => live.retain(|w| *w != id),
            Action::Nothing => {}
        }
        assert!(live.len() <= 1);
        assert_eq!(live.first().copied(), c.window());
        assert_eq!(c.state() == OverlayState::Visible, c.window().is_some());
    }
    assert_eq!(live, vec![2]);
}

#[test]
fn wake_applies_command_before_platform_event() {
    let mut c = Controller::new(Policy::Lazy);
    let r = c.wake(Some(Command::Activate), Some(Input::CloseRequested));
    assert_eq!(r, (Action::Create(0), Action::Destroy(0)));
    assert_eq!(c.state(), OverlayState::Hidden);
    let r = c.wake(None, None);
    assert_eq!(r, (Action::Nothing, Action::Nothing));
    let r = c.wake(None, Some(Input::Resumed));
    assert_eq!(r, (Action::Nothing, Action::Nothing));
}
