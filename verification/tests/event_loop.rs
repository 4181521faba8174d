use rusthero::events::Event;
use rusthero::events::FlowControl;
use rusthero::events::KeyCode;
use rusthero::events::WindowEvent;
use rusthero::events::handle_device_event;
use rusthero::events::handle_event;
use rusthero::events::handle_keyboard_input;
use rusthero::events::handle_window_event;

#[test]
fn escape_breaks_the_loop() {
    assert_eq!(handle_keyboard_input(Some(KeyCode::Escape)), FlowControl::Break);
}

#[test]
fn other_keys_keep_polling() {
    assert_eq!(handle_keyboard_input(Some(KeyCode::Other)), FlowControl::Continue);
    assert_eq!(handle_keyboard_input(None), FlowControl::Continue);
}

#[test]
fn close_request_breaks_the_loop() {
    assert_eq!(handle_window_event(WindowEvent::CloseRequested), FlowControl::Break);
}

#[test]
fn unrelated_window_events_keep_polling() {
    assert_eq!(handle_window_event(WindowEvent::Other), FlowControl::Continue);
    assert_eq!(
        handle_window_event(WindowEvent::KeyboardInput(Some(KeyCode::Other))),
        FlowControl::Continue
    );
}

#[test]
fn only_window_events_can_end_the_loop() {
    assert_eq!(handle_device_event(), FlowControl::Continue);
    assert_eq!(handle_event(Event::Device), FlowControl::Continue);
    assert_eq!(handle_event(Event::Awakened), FlowControl::Continue);
    assert_eq!(handle_event(Event::Suspended), FlowControl::Continue);
    assert_eq!(
        handle_event(Event::Window(WindowEvent::KeyboardInput(Some(KeyCode::Escape)))),
        FlowControl::Break
    );
    assert_eq!(handle_event(Event::Window(WindowEvent::CloseRequested)), FlowControl::Break);
}
