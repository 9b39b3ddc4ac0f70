use shellcore::dispatch::dispatch;
use shellcore::event::LifecycleEvent;

#[test]
fn dispatch_is_pure() {
    let first = dispatch("close", 7);
    let second = dispatch("close", 7);
    assert_eq!(first, Some(LifecycleEvent::RequestCloseWindow(7)));
    assert_eq!(first, second);

    let a = dispatch("change-title:Hi", 3);
    let b = dispatch("change-title:Hi", 3);
    assert_eq!(a, b);
}

#[test]
fn new_window_message() {
    assert_eq!(dispatch("new-window", 1), Some(LifecycleEvent::RequestNewWindow));
    assert_eq!(dispatch("new-window", 99), Some(LifecycleEvent::RequestNewWindow));
}

#[test]
fn close_message_carries_sender_identity() {
    assert_eq!(dispatch("close", 4), Some(LifecycleEvent::RequestCloseWindow(4)));
}

#[test]
fn unknown_messages_yield_no_event() {
    assert_eq!(dispatch("foo", 1), None);
    assert_eq!(dispatch("", 1), None);
    assert_eq!(dispatch("new-windowX", 1), None);
    assert_eq!(dispatch("CLOSE", 1), None);
    assert_eq!(dispatch("close ", 1), None);
    assert_eq!(dispatch(" new-window", 1), None);
    assert_eq!(dispatch("change-titl", 1), None);
}

#[test]
fn title_change_strips_token() {
    assert_eq!(
        dispatch("change-title:Hello", 2),
        Some(LifecycleEvent::RequestTitleChange(2, "Hello".to_string()))
    );
}

#[test]
fn title_change_strips_every_occurrence() {
    // A global substring removal: the second token disappears too, and only
    // the characters around the tokens (here the space) remain.
    assert_eq!(
        dispatch("change-title:a change-title:b", 2),
        Some(LifecycleEvent::RequestTitleChange(2, "a b".to_string()))
    );
    assert_eq!(
        dispatch("change-title:achange-title:b", 2),
        Some(LifecycleEvent::RequestTitleChange(2, "ab".to_string()))
    );
}

#[test]
fn title_change_without_colon_keeps_text() {
    assert_eq!(
        dispatch("change-title", 5),
        Some(LifecycleEvent::RequestTitleChange(5, "change-title".to_string()))
    );
    assert_eq!(
        dispatch("change-titleX", 5),
        Some(LifecycleEvent::RequestTitleChange(5, "change-titleX".to_string()))
    );
}

#[test]
fn title_change_empty_title() {
    assert_eq!(
        dispatch("change-title:", 6),
        Some(LifecycleEvent::RequestTitleChange(6, String::new()))
    );
}
