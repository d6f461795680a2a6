//! Small shared data types: sign-in credentials and the catalog mode.

use vstd::prelude::*;

verus! {

/// Sign-in credentials.  Held only while a session is being established and
/// never persisted by this library.
#[derive(Debug)]
pub struct Credentials {
    pub email: String,
    pub password: String,
}

impl Clone for Credentials {
    fn clone(&self) -> (r: Self)
        ensures
            r == *self,
    {
        Credentials { email: self.email.clone(), password: self.password.clone() }
    }
}

impl Credentials {
    pub fn new(email: String, password: String) -> (r: Self)
        ensures
            r.email == email,
            r.password == password,
    {
        Credentials { email, password }
    }
}

/// Which catalog backend a session drives.  Only one site is supported.
#[derive(Clone, Copy, Debug, PartialEq, Eq, Structural)]
pub enum Mode {
    Goodreads,
}

/// The display name of each mode, as a settings screen lists them.
pub open spec fn mode_label_spec(m: Mode) -> Seq<char> {
    match m {
        Mode::Goodreads => "Goodreads"@,
    }
}

impl Mode {
    /// The mode's display name.
    pub fn label(&self) -> (r: String)
        ensures
            r@ == mode_label_spec(*self),
    {
        match self {
            Mode::Goodreads => "Goodreads".to_owned(),
        }
    }

    /// The mode a display name denotes, if any.
    pub fn from_label(s: &str) -> (r: Option<Mode>)
        ensures
            match r {
                Some(m) => mode_label_spec(m) == s@,
                None => forall|m: Mode| mode_label_spec(m) != s@,
            },
    {
        if crate::text::str_eq(s, "Goodreads") {
            Some(Mode::Goodreads)
        } else {
            None
        }
    }
}

} // verus!
