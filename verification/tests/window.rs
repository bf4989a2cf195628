use vulkan_playground::window::{on_event, WindowAction, WindowEvent};

#[test]
fn redraw_renders_a_frame() {
    assert_eq!(on_event(WindowEvent::RedrawRequested), WindowAction::Render);
}

#[test]
fn cleared_events_ask_for_a_redraw() {
    assert_eq!(on_event(WindowEvent::MainEventsCleared), WindowAction::RequestRedraw);
}

#[test]
fn close_request_leaves_the_loop() {
    assert_eq!(on_event(WindowEvent::CloseRequested), WindowAction::Exit);
}

#[test]
fn new_size_resizes_to_it() {
    assert_eq!(
        on_event(WindowEvent::Resized { width: 1024, height: 768 }),
        WindowAction::Resize { width: 1024, height: 768 }
    );
    assert_eq!(
        on_event(WindowEvent::Resized { width: 0, height: 0 }),
        WindowAction::Resize { width: 0, height: 0 }
    );
}

#[test]
fn other_events_do_nothing() {
    assert_eq!(on_event(WindowEvent::Other), WindowAction::Nothing);
}
