//! The launch screen's state machine: the driver endpoint, browser choice
//! and mode being edited, and the transition into credential entry once the
//! endpoint text parses.

use vstd::prelude::*;
use crate::browser::{
    parse_ipv4_spec, parse_ipv4, parse_port_spec, parse_port, Browser, DriverConfig,
    EndpointAddress,
};
use crate::helpers::{Credentials, Mode};
use crate::scene::goodreads;
use crate::scene::goodreads::welcome::Welcome;
use crate::scene::State;

verus! {

/// What the launch screen can be told.
#[derive(Debug)]
pub enum Message {
    /// Try to launch with the edited settings.
    LaunchAttempt,
    /// Edit the driver endpoint's address text.
    ServerAddressInput(String),
    /// Edit the driver endpoint's port text.
    ServerPortInput(String),
    /// Pick a browser.
    BrowserSelected(Browser),
    /// Toggle headless operation.
    BrowserHeadlessToggle(bool),
    /// Pick a catalog mode.
    ModeSelected(Mode),
    /// The backend's inbox is connected; nothing to edit.
    BackendConnected,
}

/// The launch screen: endpoint text being edited, and the fixed choices.
#[derive(Debug)]
pub struct Launch {
    pub browser_driver_ip_input: String,
    pub browser_driver_port_input: String,
    pub browser_headless: bool,
    pub browser: Browser,
    pub mode: Mode,
}

impl Default for Launch {
    /// The local default driver endpoint, headless, driving Firefox.
    fn default() -> (r: Self)
        ensures
            r.browser_driver_ip_input@ == "127.0.0.1"@,
            r.browser_driver_port_input@ == "4444"@,
            r.browser_headless,
            r.browser == Browser::Firefox,
            r.mode == Mode::Goodreads,
    {
        Launch {
            browser_driver_ip_input: "127.0.0.1".to_owned(),
            browser_driver_port_input: "4444".to_owned(),
            browser_headless: true,
            browser: Browser::Firefox,
            mode: Mode::Goodreads,
        }
    }
}

/// The driver configuration a launch screen denotes, when its endpoint text
/// parses.
pub open spec fn config_of_spec(l: Launch) -> Option<DriverConfig> {
    match (parse_ipv4_spec(l.browser_driver_ip_input@), parse_port_spec(
        l.browser_driver_port_input@,
    )) {
        (Some(octets), Some(port)) => Some(
            DriverConfig {
                browser: l.browser,
                driver_address: EndpointAddress {
                    a: octets.0,
                    b: octets.1,
                    c: octets.2,
                    d: octets.3,
                    port,
                },
                headless: l.browser_headless,
            },
        ),
        _ => None,
    }
}

/// What one launch-screen step leaves behind.
pub open spec fn launch_step_spec(pre: Launch, message: Message, post: State) -> bool {
    match message {
        Message::LaunchAttempt => match config_of_spec(pre) {
            Some(config) => match post {
                State::Goodreads(goodreads::State::Welcome(w)) => {
                    &&& w.config == config
                    &&& w.credentials.email@ == Seq::<char>::empty()
                    &&& w.credentials.password@ == Seq::<char>::empty()
                },
                _ => false,
            },
            None => post == State::Launch(pre),
        },
        Message::ServerAddressInput(a) => post == State::Launch(
            Launch { browser_driver_ip_input: a, ..pre },
        ),
        Message::ServerPortInput(p) => post == State::Launch(
            Launch { browser_driver_port_input: p, ..pre },
        ),
        Message::BrowserSelected(b) => post == State::Launch(Launch { browser: b, ..pre }),
        Message::BrowserHeadlessToggle(h) => post == State::Launch(
            Launch { browser_headless: h, ..pre },
        ),
        Message::ModeSelected(m) => post == State::Launch(Launch { mode: m, ..pre }),
        Message::BackendConnected => post == State::Launch(pre),
    }
}

impl Launch {
    /// Apply one message: edits update a field; a launch attempt moves to
    /// credential entry once the endpoint text parses, and is otherwise
    /// ignored.
    pub fn update(self, message: Message) -> (post: State)
        ensures
            launch_step_spec(self, message, post),
    {
        match message {
            Message::LaunchAttempt => {
                let octets = parse_ipv4(self.browser_driver_ip_input.as_str());
                let port = parse_port(self.browser_driver_port_input.as_str());
                match (octets, port) {
                    (Some(o), Some(port)) => {
                        let config = DriverConfig {
                            browser: self.browser,
                            driver_address: EndpointAddress {
                                a: o.0,
                                b: o.1,
                                c: o.2,
                                d: o.3,
                                port,
                            },
                            headless: self.browser_headless,
                        };
                        State::Goodreads(
                            goodreads::State::Welcome(
                                Welcome {
                                    credentials: Credentials {
                                        email: String::new(),
                                        password: String::new(),
                                    },
                                    config,
                                },
                            ),
                        )
                    },
                    _ => State::Launch(self),
                }
            },
            Message::ServerAddressInput(a) => State::Launch(
                Launch { browser_driver_ip_input: a, ..self },
            ),
            Message::ServerPortInput(p) => State::Launch(
                Launch { browser_driver_port_input: p, ..self },
            ),
            Message::BrowserSelected(b) => State::Launch(Launch { browser: b, ..self }),
            Message::BrowserHeadlessToggle(h) => State::Launch(
                Launch { browser_headless: h, ..self },
            ),
            Message::ModeSelected(m) => State::Launch(Launch { mode: m, ..self }),
            Message::BackendConnected => State::Launch(self),
        }
    }
}

} // verus!
