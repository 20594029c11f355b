use nanochat::app::{Event, FloatingButton, MainWindow};
use nanochat::window::IdAllocator;

#[test]
fn allocator_hands_out_distinct_ids() {
    let mut alloc = IdAllocator::new();
    let a = alloc.next_id();
    let b = alloc.next_id();
    let c = alloc.next_id();
    assert_ne!(a, b);
    assert_ne!(b, c);
    assert_ne!(a, c);
}

#[test]
fn main_window_starts_without_floating_button() {
    let w = MainWindow::new();
    assert!(w.floating_button.is_none());
}

#[test]
fn test_event_pokes_and_requests_redraw() {
    let mut alloc = IdAllocator::new();
    let child = alloc.next_id();
    let mut w = MainWindow::new();
    w.floating_button = Some(child);
    let redraw = w.on_event(child, Event::Test);
    assert!(redraw);
    assert_eq!(w.floating_button, Some(child));
}

#[test]
fn floating_button_keeps_its_parent() {
    let mut alloc = IdAllocator::new();
    let parent = alloc.next_id();
    let button = FloatingButton::new(parent);
    assert_eq!(button.parent, parent);
}
