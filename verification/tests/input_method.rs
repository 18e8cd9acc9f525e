use wayland_protocols_async::zwp_input_method_v2::handler::{InputMethodEvent, InputMethodMessage, InputMethodRequest, InputMethodState};

#[test]
fn commit_carries_count_of_done_events() {
    let mut s = InputMethodState::new();
    assert!(matches!(s.request(InputMethodMessage::Commit), InputMethodRequest::Commit { serial: 0 }));
    s.on_event(InputMethodEvent::Activate);
    s.on_event(InputMethodEvent::Done);
    s.on_event(InputMethodEvent::Done);
    assert!(matches!(s.request(InputMethodMessage::Commit), InputMethodRequest::Commit { serial: 2 }));
}

#[test]
fn serial_wraps_around() {
    let mut s = InputMethodState { serial: u32::MAX };
    assert!(matches!(s.on_event(InputMethodEvent::Done), InputMethodEvent::Done));
    assert_eq!(s.serial, 0);
}

#[test]
fn events_pass_through_and_texts_are_sent_unchanged() {
    let mut s = InputMethodState::new();
    let ev = s.on_event(InputMethodEvent::SurroundingText { text: String::from("hi"), cursor: 1, anchor: 2 });
    assert!(matches!(ev, InputMethodEvent::SurroundingText { ref text, cursor: 1, anchor: 2 } if text == "hi"));
    assert_eq!(s.serial, 0);
    let r = s.request(InputMethodMessage::SetPreeditString { text: String::from("a"), cursor_begin: -1, cursor_end: 3 });
    assert!(matches!(r, InputMethodRequest::SetPreeditString { ref text, cursor_begin: -1, cursor_end: 3 } if text == "a"));
    let r = s.request(InputMethodMessage::DeleteSurroundingText { before_length: 4, after_length: 5 });
    assert!(matches!(r, InputMethodRequest::DeleteSurroundingText { before_length: 4, after_length: 5 }));
}
