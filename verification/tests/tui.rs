use issloc::tui::Action;
use issloc::tui::InputEvent;
use issloc::tui::Key;

#[test]
fn quit_key_exits() {
    assert_eq!(Action::from_keypress(Key::Char('q')), Action::Exit);
}

#[test]
fn left_arrow_decreases_the_delay() {
    assert_eq!(Action::from_keypress(Key::Left), Action::DecreaseDelayTime);
}

#[test]
fn right_arrow_increases_the_delay() {
    assert_eq!(Action::from_keypress(Key::Right), Action::IncreaseDelayTime);
}

#[test]
fn enter_polls() {
    assert_eq!(Action::from_keypress(Key::Enter), Action::PingRESTAPI);
}

#[test]
fn other_keys_are_unbound() {
    assert_eq!(Action::from_keypress(Key::Other), Action::Error);
    for c in ['Q', 'a', 'p', ' ', '\n', '0', 'é', '\u{10ffff}'] {
        assert_eq!(Action::from_keypress(Key::Char(c)), Action::Error);
    }
}

#[test]
fn decoding_gives_the_same_answer_every_time() {
    for key in [Key::Char('q'), Key::Char('x'), Key::Left, Key::Right, Key::Enter, Key::Other] {
        assert_eq!(Action::from_keypress(key), Action::from_keypress(key));
    }
}

#[test]
fn key_press_triggers_the_action_of_its_key() {
    for key in [Key::Char('q'), Key::Char('x'), Key::Left, Key::Right, Key::Enter, Key::Other] {
        assert_eq!(
            Action::from_event(InputEvent::KeyPress(key)),
            Some(Action::from_keypress(key))
        );
    }
}

#[test]
fn key_release_triggers_nothing() {
    for key in [Key::Char('q'), Key::Left, Key::Right, Key::Enter, Key::Other] {
        assert_eq!(Action::from_event(InputEvent::KeyRelease(key)), None);
    }
}

#[test]
fn key_repeat_triggers_nothing() {
    for key in [Key::Char('q'), Key::Left, Key::Right, Key::Enter, Key::Other] {
        assert_eq!(Action::from_event(InputEvent::KeyRepeat(key)), None);
    }
}

#[test]
fn other_events_trigger_nothing() {
    assert_eq!(Action::from_event(InputEvent::Other), None);
}
