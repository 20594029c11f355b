//! Plain state of the hosting shell's windows. Drawing and event
//! dispatch are presentation concerns outside this library; only the
//! data those windows keep, and what each event does to it, lives here.

use vstd::prelude::*;

use crate::window::Id;

verus! {

/// Events the shell's windows send one another.
#[derive(Clone, Copy, Debug)]
pub enum Event {
    /// The floating button was clicked.
    Test,
}

/// `std::time::Instant`, kept as an opaque timestamp.
#[verifier::external_type_specification]
#[verifier::external_body]
pub struct ExInstant(std::time::Instant);

/// Relies on `Instant::now`: an opaque timestamp of the moment of the
/// call; nothing further is assumed of it.
#[verifier::external_body]
fn instant_now() -> std::time::Instant {
    std::time::Instant::now()
}

/// State of the main window: when it was last poked, and the floating
/// button window it opened, if any.
pub struct MainWindow {
    /// When the window was created or last received [`Event::Test`];
    /// drawing shows a short-lived label while this is fresh.
    pub test: std::time::Instant,
    /// The floating button window opened from here, once there is one.
    pub floating_button: Option<Id>,
}

impl MainWindow {
    /// A fresh main window: just poked, and no floating button yet.
    pub fn new() -> (w: MainWindow)
        ensures
            w.floating_button is None,
    {
        MainWindow { test: instant_now(), floating_button: None }
    }

    /// React to an event from another window: a click on the floating
    /// button pokes the timestamp, keeps the button link, and asks for a
    /// redraw.
    pub fn on_event(&mut self, _from: Id, event: Event) -> (redraw: bool)
        ensures
            redraw,
            final(self).floating_button == old(self).floating_button,
    {
        match event {
            Event::Test => {
                self.test = instant_now();
            },
        }
        true
    }
}

/// State of the floating button window: the window it reports clicks to.
pub struct FloatingButton {
    /// The window notified when the button is clicked.
    pub parent: Id,
}

impl FloatingButton {
    /// A button reporting to the given parent window.
    pub fn new(parent: Id) -> (b: FloatingButton)
        ensures
            b.parent == parent,
    {
        FloatingButton { parent }
    }
}

} // verus!
