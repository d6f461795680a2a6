//! The signed-in scene: credential entry, then the catalog screen.

pub mod home;
pub mod welcome;

use vstd::prelude::*;
use crate::backend;

verus! {

/// A message for whichever screen is showing.
#[derive(Debug)]
pub enum Message {
    Welcome(welcome::Message),
    Home(home::Message),
}

/// Which screen is showing.
#[derive(Debug)]
pub enum State {
    Welcome(welcome::Welcome),
    Home(home::Home),
}

/// What one step of the signed-in scene leaves behind: the screen the
/// message addresses steps; a message for the other screen is dropped.
pub open spec fn goodreads_step_spec(
    pre: State,
    message: Message,
    post: State,
    out: Option<backend::Input>,
) -> bool {
    match (pre, message) {
        (State::Welcome(w), Message::Welcome(m)) => welcome::welcome_step_spec(w, m, post, out),
        (State::Home(h), Message::Home(m)) => home::home_step_spec(h, m, post) && out is None,
        (State::Welcome(w), Message::Home(_)) => post == State::Welcome(w) && out is None,
        (State::Home(h), Message::Welcome(_)) => post == State::Home(h) && out is None,
    }
}

impl State {
    /// Route one message to the current screen.
    pub fn update(self, message: Message) -> (r: (State, Option<backend::Input>))
        ensures
            goodreads_step_spec(self, message, r.0, r.1),
    {
        match (self, message) {
            (State::Welcome(w), Message::Welcome(m)) => w.update(m),
            (State::Home(h), Message::Home(m)) => (h.update(m), None),
            (State::Welcome(w), Message::Home(_)) => (State::Welcome(w), None),
            (State::Home(h), Message::Welcome(_)) => (State::Home(h), None),
        }
    }
}

} // verus!
