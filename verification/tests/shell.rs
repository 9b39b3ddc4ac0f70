use shellcore::event::{Directive, LifecycleEvent};
use shellcore::shell::EventLoopCore;

fn start_with_one_window() -> EventLoopCore {
    let mut core = EventLoopCore::new();
    let title = core.next_window_title();
    assert_eq!(title, "Window 1".to_string());
    core.register_window(1, title);
    core
}

#[test]
fn end_to_end_scenario() {
    let mut core = start_with_one_window();
    assert_eq!(core.window_count(), 1);

    // Two new-window requests; each directive carries the next title, and the
    // platform registers the created window under a fresh identity.
    let d = core.handle_event(LifecycleEvent::RequestNewWindow);
    assert_eq!(d, Directive::CreateWindow("Window 2".to_string()));
    core.register_window(2, "Window 2".to_string());

    let d = core.handle_event(LifecycleEvent::RequestNewWindow);
    assert_eq!(d, Directive::CreateWindow("Window 3".to_string()));
    core.register_window(3, "Window 3".to_string());

    assert_eq!(core.window_count(), 3);
    assert_eq!(core.title_of(1), Some("Window 1".to_string()));
    assert_eq!(core.title_of(2), Some("Window 2".to_string()));
    assert_eq!(core.title_of(3), Some("Window 3".to_string()));

    // Close "Window 2": two windows remain, loop keeps running.
    let d = core.handle_event(LifecycleEvent::RequestCloseWindow(2));
    assert_eq!(d, Directive::Continue);
    assert_eq!(core.window_count(), 2);
    assert_eq!(core.title_of(1), Some("Window 1".to_string()));
    assert_eq!(core.title_of(2), None);
    assert_eq!(core.title_of(3), Some("Window 3".to_string()));
    assert!(!core.is_terminated());

    // Close the remaining two: the last removal terminates the loop.
    let d = core.handle_event(LifecycleEvent::RequestCloseWindow(1));
    assert_eq!(d, Directive::Continue);
    let d = core.handle_event(LifecycleEvent::RequestCloseWindow(3));
    assert_eq!(d, Directive::Exit);
    assert!(core.is_terminated());
    assert_eq!(core.window_count(), 0);
}

#[test]
fn native_close_behaves_like_close_request() {
    let mut core = start_with_one_window();
    core.register_window(2, "Window 2".to_string());

    let d = core.handle_event(LifecycleEvent::NativeCloseRequested(1));
    assert_eq!(d, Directive::Continue);
    assert_eq!(core.window_count(), 1);

    let d = core.handle_event(LifecycleEvent::NativeCloseRequested(2));
    assert_eq!(d, Directive::Exit);
    assert!(core.is_terminated());
}

#[test]
fn title_change_updates_live_window() {
    let mut core = start_with_one_window();
    let d = core.handle_event(LifecycleEvent::RequestTitleChange(1, "Hello".to_string()));
    assert_eq!(d, Directive::SetNativeTitle(1, "Hello".to_string()));
    assert_eq!(core.title_of(1), Some("Hello".to_string()));
    assert_eq!(core.window_count(), 1);
}

#[test]
fn stale_identity_title_change_is_noop() {
    let mut core = start_with_one_window();
    core.register_window(2, "Window 2".to_string());

    let d = core.handle_event(LifecycleEvent::RequestCloseWindow(2));
    assert_eq!(d, Directive::Continue);

    // A buffered title change for the closed window arrives afterwards.
    let d = core.handle_event(LifecycleEvent::RequestTitleChange(2, "late".to_string()));
    assert_eq!(d, Directive::Continue);
    assert_eq!(core.window_count(), 1);
    assert_eq!(core.title_of(1), Some("Window 1".to_string()));
    assert_eq!(core.title_of(2), None);
    assert!(!core.is_terminated());
}

#[test]
fn new_window_titles_follow_live_count() {
    let mut core = start_with_one_window();
    core.register_window(2, "Window 2".to_string());
    core.handle_event(LifecycleEvent::RequestCloseWindow(1));

    // One window remains, so the next title reuses the number 2.
    let d = core.handle_event(LifecycleEvent::RequestNewWindow);
    assert_eq!(d, Directive::CreateWindow("Window 2".to_string()));
}
