//! A one-screen sign-in form: credentials and driver endpoint edited
//! together, producing the backend's launch command in a single step.  An
//! application shell may use this in place of the two-screen launch flow.

use vstd::prelude::*;
use crate::backend;
use crate::browser::{
    parse_ipv4_spec, parse_ipv4, parse_port_spec, parse_port, Browser, DriverConfig,
    EndpointAddress,
};
use crate::helpers::Credentials;

verus! {

/// What the sign-in form can be told.
#[derive(Debug)]
pub enum Message {
    /// Edit the e-mail field.
    EmailInput(String),
    /// Edit the secret field.
    PasswordInput(String),
    /// Attempt to sign in with the edited settings.
    AttemptLogin,
    /// Edit the driver endpoint's address text.
    ServerAddressInput(String),
    /// Edit the driver endpoint's port text.
    ServerPortInput(String),
    /// Pick a browser.
    BrowserSelected(Browser),
    /// Toggle headless operation.
    BrowserHeadlessToggle(bool),
}

/// The one-screen sign-in form.
#[derive(Debug)]
pub struct Login {
    pub credentials: Credentials,
    pub browser_driver_ip_input: String,
    pub browser_driver_port_input: String,
    pub browser_headless: bool,
    pub browser: Browser,
}

impl Default for Login {
    /// Empty credentials, the local default driver endpoint, headless,
    /// driving Firefox.
    fn default() -> (r: Self)
        ensures
            r.credentials.email@ == Seq::<char>::empty(),
            r.credentials.password@ == Seq::<char>::empty(),
            r.browser_driver_ip_input@ == "127.0.0.1"@,
            r.browser_driver_port_input@ == "4444"@,
            r.browser_headless,
            r.browser == Browser::Firefox,
    {
        Login {
            credentials: Credentials { email: String::new(), password: String::new() },
            browser_driver_ip_input: "127.0.0.1".to_owned(),
            browser_driver_port_input: "4444".to_owned(),
            browser_headless: true,
            browser: Browser::Firefox,
        }
    }
}

/// The driver configuration the form denotes, when its endpoint text
/// parses.
pub open spec fn login_config_spec(l: Login) -> Option<DriverConfig> {
    match (parse_ipv4_spec(l.browser_driver_ip_input@), parse_port_spec(
        l.browser_driver_port_input@,
    )) {
        (Some(octets), Some(port)) => Some(
            DriverConfig {
                browser: l.browser,
                driver_address: EndpointAddress {
                    a: octets.0,
                    b: octets.1,
                    c: octets.2,
                    d: octets.3,
                    port,
                },
                headless: l.browser_headless,
            },
        ),
        _ => None,
    }
}

/// What one form step leaves behind, and the command it sends.
pub open spec fn login_step_spec(
    pre: Login,
    message: Message,
    post: Login,
    out: Option<backend::Input>,
) -> bool {
    match message {
        Message::EmailInput(email) => out is None && post == (Login {
            credentials: Credentials { email, password: pre.credentials.password },
            ..pre
        }),
        Message::PasswordInput(password) => out is None && post == (Login {
            credentials: Credentials { email: pre.credentials.email, password },
            ..pre
        }),
        Message::AttemptLogin => post == pre && match login_config_spec(pre) {
            Some(config) => out == Some(
                backend::Input::Launch { config, credentials: pre.credentials },
            ),
            None => out is None,
        },
        Message::ServerAddressInput(a) => out is None && post == (Login {
            browser_driver_ip_input: a,
            ..pre
        }),
        Message::ServerPortInput(p) => out is None && post == (Login {
            browser_driver_port_input: p,
            ..pre
        }),
        Message::BrowserSelected(b) => out is None && post == (Login { browser: b, ..pre }),
        Message::BrowserHeadlessToggle(h) => out is None && post == (Login {
            browser_headless: h,
            ..pre
        }),
    }
}

impl Login {
    /// Apply one message: edits update a field; a sign-in attempt emits the
    /// launch command once the endpoint text parses, and is otherwise
    /// ignored.
    pub fn update(self, message: Message) -> (r: (Login, Option<backend::Input>))
        ensures
            login_step_spec(self, message, r.0, r.1),
    {
        match message {
            Message::EmailInput(email) => (
                Login {
                    credentials: Credentials { email, password: self.credentials.password },
                    ..self
                },
                None,
            ),
            Message::PasswordInput(password) => (
                Login {
                    credentials: Credentials { email: self.credentials.email, password },
                    ..self
                },
                None,
            ),
            Message::AttemptLogin => {
                let octets = parse_ipv4(self.browser_driver_ip_input.as_str());
                let port = parse_port(self.browser_driver_port_input.as_str());
                match (octets, port) {
                    (Some(o), Some(port)) => {
                        let config = DriverConfig {
                            browser: self.browser,
                            driver_address: EndpointAddress {
                                a: o.0,
                                b: o.1,
                                c: o.2,
                                d: o.3,
                                port,
                            },
                            headless: self.browser_headless,
                        };
                        let credentials = self.credentials.clone();
                        (self, Some(backend::Input::Launch { config, credentials }))
                    },
                    _ => (self, None),
                }
            },
            Message::ServerAddressInput(a) => (
                Login { browser_driver_ip_input: a, ..self },
                None,
            ),
            Message::ServerPortInput(p) => (
                Login { browser_driver_port_input: p, ..self },
                None,
            ),
            Message::BrowserSelected(b) => (Login { browser: b, ..self }, None),
            Message::BrowserHeadlessToggle(h) => (Login { browser_headless: h, ..self }, None),
        }
    }
}

} // verus!
