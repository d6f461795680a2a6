//! The UI-side scene machine: which screen is showing, how backend events
//! become screen messages, and how screen steps produce backend commands.

pub mod goodreads;
pub mod launch;
pub mod login;

use vstd::prelude::*;
use crate::backend;
use crate::scene::launch::Launch;

verus! {

/// Which screen is showing.
#[derive(Debug)]
pub enum State {
    Launch(launch::Launch),
    Goodreads(goodreads::State),
}

/// A message for the scene: the backend's connection notice, or a message
/// for one of the screens.
#[derive(Debug)]
pub enum Message {
    /// The backend's inbox is connected.
    Connected,
    /// A session-level failure to display; no screen changes.
    ErrorReported { text: String },
    Launch(launch::Message),
    Goodreads(goodreads::Message),
}

/// How each backend event reads as a scene message.
pub open spec fn message_of_output_spec(output: backend::Output, m: Message) -> bool {
    match output {
        backend::Output::Connected => m == Message::Connected,
        backend::Output::LoginSucceeded { user_id } => m == Message::Goodreads(
            goodreads::Message::Welcome(goodreads::welcome::Message::LoginSuccess { user_id }),
        ),
        backend::Output::CatalogReady { count } => m == Message::Goodreads(
            goodreads::Message::Home(goodreads::home::Message::CatalogReady { count }),
        ),
        backend::Output::DetailArrived { index, ok } => m == Message::Goodreads(
            goodreads::Message::Home(goodreads::home::Message::BookFetched { index, ok }),
        ),
        backend::Output::Error { error } => m matches Message::ErrorReported { text } && text@
            == error.message_spec(),
    }
}

/// Read one backend event as a scene message.
pub fn message_of_output(output: backend::Output) -> (m: Message)
    ensures
        message_of_output_spec(output, m),
{
    match output {
        backend::Output::Connected => Message::Connected,
        backend::Output::LoginSucceeded { user_id } => Message::Goodreads(
            goodreads::Message::Welcome(goodreads::welcome::Message::LoginSuccess { user_id }),
        ),
        backend::Output::CatalogReady { count } => Message::Goodreads(
            goodreads::Message::Home(goodreads::home::Message::CatalogReady { count }),
        ),
        backend::Output::DetailArrived { index, ok } => Message::Goodreads(
            goodreads::Message::Home(goodreads::home::Message::BookFetched { index, ok }),
        ),
        backend::Output::Error { error } => Message::ErrorReported { text: error.message() },
    }
}

/// What one scene step leaves behind: the screen the message addresses
/// steps; anything else leaves the scene as it is.
pub open spec fn scene_step_spec(
    pre: State,
    message: Message,
    post: State,
    out: Option<backend::Input>,
) -> bool {
    match message {
        Message::Connected => post == pre && out is None,
        Message::ErrorReported { .. } => post == pre && out is None,
        Message::Launch(m) => match pre {
            State::Launch(l) => launch::launch_step_spec(l, m, post) && out is None,
            _ => post == pre && out is None,
        },
        Message::Goodreads(m) => match pre {
            State::Goodreads(g) => match post {
                State::Goodreads(g2) => goodreads::goodreads_step_spec(g, m, g2, out),
                _ => false,
            },
            _ => post == pre && out is None,
        },
    }
}

/// The scene: its current screen.
#[derive(Debug)]
pub struct Scene {
    pub state: State,
}

impl Default for Scene {
    fn default() -> (r: Self)
        ensures
            r.state matches State::Launch(l) && l.browser_driver_ip_input@ == "127.0.0.1"@
                && l.browser_driver_port_input@ == "4444"@ && l.browser_headless && l.browser
                == crate::browser::Browser::Firefox && l.mode == crate::helpers::Mode::Goodreads,
    {
        Scene { state: State::Launch(Launch::default()) }
    }
}

impl Scene {
    /// Route one message to the current screen, returning the command it
    /// produced for the backend, if any.
    pub fn update(&mut self, message: Message) -> (out: Option<backend::Input>)
        ensures
            scene_step_spec(old(self).state, message, final(self).state, out),
    {
        let mut state = State::Launch(Launch::default());
        core::mem::swap(&mut state, &mut self.state);
        match message {
            Message::Connected => {
                self.state = state;
                None
            },
            Message::ErrorReported { .. } => {
                self.state = state;
                None
            },
            Message::Launch(m) => match state {
                State::Launch(l) => {
                    self.state = l.update(m);
                    None
                },
                other => {
                    self.state = other;
                    None
                },
            },
            Message::Goodreads(m) => match state {
                State::Goodreads(g) => {
                    let (g2, out) = g.update(m);
                    self.state = State::Goodreads(g2);
                    out
                },
                other => {
                    self.state = other;
                    None
                },
            },
        }
    }
}

} // verus!
