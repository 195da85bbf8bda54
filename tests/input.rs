use pomodoro::input::{command_for, Command, InputEvent, KeyInput, POLL_TIMEOUT_MS};

fn key(ch: Option<char>, plain: bool, press: bool) -> Option<InputEvent> {
    Some(InputEvent::Key(KeyInput { ch, plain, press }))
}

#[test]
fn q_and_p_are_the_only_bindings() {
    assert_eq!(command_for(key(Some('q'), true, true)), Command::Quit);
    assert_eq!(command_for(key(Some('p'), true, true)), Command::TogglePause);
    assert_eq!(command_for(key(Some('x'), true, true)), Command::Idle);
    assert_eq!(command_for(key(Some('Q'), true, true)), Command::Idle);
    assert_eq!(command_for(key(None, true, true)), Command::Idle);
}

#[test]
fn modified_or_released_keys_do_nothing() {
    assert_eq!(command_for(key(Some('q'), false, true)), Command::Idle);
    assert_eq!(command_for(key(Some('p'), true, false)), Command::Idle);
}

#[test]
fn other_events_and_empty_polls_do_nothing() {
    assert_eq!(command_for(Some(InputEvent::Other)), Command::Idle);
    assert_eq!(command_for(None), Command::Idle);
}

#[test]
fn poll_wait_is_bounded() {
    assert_eq!(POLL_TIMEOUT_MS, 100);
}
