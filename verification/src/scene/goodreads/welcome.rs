//! The credential-entry screen: the credentials being edited, the driver
//! configuration carried over from the launch screen, and the launch
//! command both produce once sign-in is attempted.

use vstd::prelude::*;
use crate::backend;
use crate::browser::DriverConfig;
use crate::helpers::Credentials;
use crate::scene::goodreads::home::Home;
use crate::scene::goodreads::State;

verus! {

/// What the credential-entry screen can be told.
#[derive(Debug)]
pub enum Message {
    /// Edit the e-mail field.
    EmailInput(String),
    /// Edit the secret field.
    PasswordInput(String),
    /// Attempt to sign in with the edited credentials.
    LoginAttempt,
    /// The backend signed in; move to the catalog screen.
    LoginSuccess { user_id: String },
}

/// The credential-entry screen.
#[derive(Debug)]
pub struct Welcome {
    pub credentials: Credentials,
    pub config: DriverConfig,
}

impl Welcome {
    /// A fresh screen for the given driver configuration, fields empty.
    pub fn new(config: DriverConfig) -> (r: Self)
        ensures
            r.config == config,
            r.credentials.email@ == Seq::<char>::empty(),
            r.credentials.password@ == Seq::<char>::empty(),
    {
        Welcome {
            credentials: Credentials { email: String::new(), password: String::new() },
            config,
        }
    }
}

/// What one credential-entry step leaves behind, and the command it sends.
pub open spec fn welcome_step_spec(
    pre: Welcome,
    message: Message,
    post: State,
    out: Option<backend::Input>,
) -> bool {
    match message {
        Message::EmailInput(email) => out is None && post == State::Welcome(
            Welcome { credentials: Credentials { email, password: pre.credentials.password }, ..pre },
        ),
        Message::PasswordInput(password) => out is None && post == State::Welcome(
            Welcome { credentials: Credentials { email: pre.credentials.email, password }, ..pre },
        ),
        Message::LoginAttempt => post == State::Welcome(pre) && out == Some(
            backend::Input::Launch { config: pre.config, credentials: pre.credentials },
        ),
        Message::LoginSuccess { user_id } => out is None && match post {
            State::Home(h) => {
                &&& h.user_id == user_id
                &&& h.slot_count == 0
                &&& h.resolved@ == Seq::<bool>::empty()
                &&& h.selected is None
            },
            _ => false,
        },
    }
}

impl Welcome {
    /// Apply one message: edits update a field, a sign-in attempt emits the
    /// launch command for the backend, and a reported success moves to the
    /// catalog screen.
    pub fn update(self, message: Message) -> (r: (State, Option<backend::Input>))
        ensures
            welcome_step_spec(self, message, r.0, r.1),
    {
        match message {
            Message::EmailInput(email) => (
                State::Welcome(
                    Welcome {
                        credentials: Credentials { email, password: self.credentials.password },
                        config: self.config,
                    },
                ),
                None,
            ),
            Message::PasswordInput(password) => (
                State::Welcome(
                    Welcome {
                        credentials: Credentials { email: self.credentials.email, password },
                        config: self.config,
                    },
                ),
                None,
            ),
            Message::LoginAttempt => {
                let credentials = self.credentials.clone();
                let config = self.config;
                (
                    State::Welcome(self),
                    Some(backend::Input::Launch { config, credentials }),
                )
            },
            Message::LoginSuccess { user_id } => (
                State::Home(
                    Home { user_id, slot_count: 0, resolved: Vec::new(), selected: None },
                ),
                None,
            ),
        }
    }
}

} // verus!
