use shketch::canvas::Tool;
use shketch::grid::Point;
use shketch::terminal::{
    Event, InputError, KeyEvent, KeyModifier, MouseAction, MouseEvent, RawEvent, RawKey, RawMouse,
};

#[test]
fn key_with_a_character_is_understood() {
    assert_eq!(
        KeyEvent::decode(RawKey::Char('q'), false, false, false),
        Ok(KeyEvent { char: 'q', modifier: None })
    );
}

#[test]
fn key_with_control_alone_carries_the_modifier() {
    assert_eq!(
        KeyEvent::decode(RawKey::Char('s'), false, true, false),
        Ok(KeyEvent { char: 's', modifier: Some(KeyModifier::Ctrl) })
    );
}

#[test]
fn key_with_control_and_more_carries_no_modifier() {
    for (shift, alt) in [(true, false), (false, true), (true, true)] {
        assert_eq!(
            KeyEvent::decode(RawKey::Char('s'), shift, true, alt),
            Ok(KeyEvent { char: 's', modifier: None })
        );
    }
    assert_eq!(
        KeyEvent::decode(RawKey::Char('S'), true, false, false),
        Ok(KeyEvent { char: 'S', modifier: None })
    );
}

#[test]
fn key_without_a_character_is_unsupported() {
    assert_eq!(
        KeyEvent::decode(RawKey::Other, false, false, false),
        Err(InputError::UnsupportedKeyEvent)
    );
    assert_eq!(
        KeyEvent::decode(RawKey::Other, false, true, false),
        Err(InputError::UnsupportedKeyEvent)
    );
}

#[test]
fn key_default() {
    assert_eq!(KeyEvent::default(), KeyEvent { char: '\0', modifier: None });
}

#[test]
fn mouse_new() {
    let event = MouseEvent::new(MouseAction::Drag, Point::new(3, 4));
    assert_eq!(event.action, MouseAction::Drag);
    assert_eq!(event.pos, Point::new(3, 4));
}

#[test]
fn mouse_reports_are_understood() {
    assert_eq!(
        MouseEvent::decode(RawMouse::Down(3, 4)),
        Ok(MouseEvent::new(MouseAction::Press, Point::new(3, 4)))
    );
    assert_eq!(
        MouseEvent::decode(RawMouse::Up(5, 6)),
        Ok(MouseEvent::new(MouseAction::Release, Point::new(5, 6)))
    );
    assert_eq!(
        MouseEvent::decode(RawMouse::Drag(7, 8)),
        Ok(MouseEvent::new(MouseAction::Drag, Point::new(7, 8)))
    );
}

#[test]
fn mouse_other_is_unsupported() {
    assert_eq!(MouseEvent::decode(RawMouse::Other), Err(InputError::UnsupportedMouseEvent));
}

#[test]
fn event_decodes_keys_and_pointer() {
    assert_eq!(
        Event::decode(RawEvent::Key { key: RawKey::Char('u'), shift: false, control: false, alt: false }),
        Ok(Event::Key(KeyEvent { char: 'u', modifier: None }))
    );
    assert_eq!(
        Event::decode(RawEvent::Mouse(RawMouse::Drag(9, 10))),
        Ok(Event::Mouse(MouseEvent::new(MouseAction::Drag, Point::new(9, 10))))
    );
}

#[test]
fn event_passes_the_errors_on() {
    assert_eq!(
        Event::decode(RawEvent::Key { key: RawKey::Other, shift: false, control: false, alt: false }),
        Err(InputError::UnsupportedKeyEvent)
    );
    assert_eq!(
        Event::decode(RawEvent::Mouse(RawMouse::Other)),
        Err(InputError::UnsupportedMouseEvent)
    );
    assert_eq!(Event::decode(RawEvent::Other), Err(InputError::UnsupportedEvent));
}

#[test]
fn input_error_messages() {
    assert_eq!(InputError::UnsupportedEvent.message(), "unsupported input event");
    assert_eq!(InputError::UnsupportedKeyEvent.message(), "unsupported input key event");
    assert_eq!(InputError::UnsupportedMouseEvent.message(), "unsupported input mouse event");
}

#[test]
fn tool_of_a_digit() {
    assert_eq!(Tool::from('1'), Tool::Plot);
    assert_eq!(Tool::from('2'), Tool::Line);
    assert_eq!(Tool::from('3'), Tool::Erase);
    assert_eq!(Tool::from('0'), Tool::Plot);
    assert_eq!(Tool::from('9'), Tool::Plot);
    assert_eq!(Tool::for_key('2'), Tool::Line);
    assert_eq!(Tool::default(), Tool::Plot);
}
