//! The sign-in flow: a fixed sequence of semantic browser actions that turns
//! credentials and a live automation session into the account identifier.
//! The application shell performs each action against the real browser and
//! feeds the outcome back; the flow decides what comes next, wraps each
//! failure with the phase it struck, and parses the identifier out of the
//! profile link.

use vstd::prelude::*;
use crate::helpers::Credentials;
use crate::text::{split_char, split_spec};

verus! {

/// Where in the sign-in flow a failure occurred, so a caller can tell "bad
/// credentials or changed sign-in UI" from "signed in but identity unknown".
#[derive(Clone, Copy, Debug, PartialEq, Eq, Structural)]
pub enum AuthError {
    /// Could not reach or load the sign-in page.
    SignInNavigation,
    /// A sign-in control was missing, or the credentials could not be
    /// entered or submitted.
    CredentialEntry,
    /// Signed in, but the profile control or its link was not found.
    IdentifierLookup,
    /// Signed in, but no identifier token could be parsed out of the link.
    AccountIdParse,
}

impl AuthError {
    /// What `message` returns for each failure.
    pub open spec fn message_spec(self) -> Seq<char> {
        match self {
            AuthError::SignInNavigation => "failed to reach the sign-in page"@,
            AuthError::CredentialEntry => "failed to enter or submit credentials"@,
            AuthError::IdentifierLookup => "signed in, but found no profile link"@,
            AuthError::AccountIdParse => "signed in, but the profile link held no identifier"@,
        }
    }

    /// A short description, for the application shell to display.
    pub fn message(&self) -> (r: String)
        ensures
            r@ == self.message_spec(),
    {
        match self {
            AuthError::SignInNavigation => "failed to reach the sign-in page".to_owned(),
            AuthError::CredentialEntry => "failed to enter or submit credentials".to_owned(),
            AuthError::IdentifierLookup => "signed in, but found no profile link".to_owned(),
            AuthError::AccountIdParse => "signed in, but the profile link held no identifier"
                .to_owned(),
        }
    }
}

/// One semantic browser action for the application shell to perform.  The
/// selector strings are configuration carried in the action, not logic.
#[derive(Debug)]
pub enum BrowserAction {
    /// Navigate to the URL.
    Navigate { url: String },
    /// Find the element the selector names and click it.
    Click { selector: String },
    /// Find the element the selector names and type the text into it.
    TypeText { selector: String, text: String },
    /// Read an attribute off the element the selector names.
    ReadAttribute { selector: String, attribute: String },
}

/// What one browser action came back with.
#[derive(Debug)]
pub enum BrowserOutcome {
    /// The action completed.
    Done,
    /// An attribute was read; absent when the element lacks it.
    Value { value: Option<String> },
    /// The selector matched nothing within the bounded wait.
    ElementNotFound,
    /// The automation endpoint itself failed.
    ProtocolError,
}

/// The steps of the sign-in sequence, in order, plus the two resting
/// states.
#[derive(Clone, Copy, Debug, PartialEq, Eq, Structural)]
pub enum AuthStep {
    NavigateSignIn,
    OpenEmailSignIn,
    EnterEmail,
    EnterPassword,
    Submit,
    ReadProfileLink,
    Complete,
    Failed,
}

// ---------------------------------------------------------------------------
// Account-identifier parsing
// ---------------------------------------------------------------------------

/// The identifier token of a profile link: the final path segment's leading
/// token before its first `-` separator.
pub open spec fn account_token_spec(href: Seq<char>) -> Seq<char> {
    split_spec(split_spec(href, '/').last(), '-')[0]
}

/// The account identifier a profile link yields: the token above, when it
/// is non-empty.
pub open spec fn account_id_spec(href: Seq<char>) -> Option<Seq<char>> {
    if account_token_spec(href).len() == 0 {
        None
    } else {
        Some(account_token_spec(href))
    }
}

/// Parse the account identifier out of a profile link.  `None` exactly when
/// the link has no recognizable identifier token.
pub fn parse_account_id(href: &str) -> (r: Option<String>)
    ensures
        r.deep_view() == account_id_spec(href@),
{
    let segs = split_char(href, '/');
    proof {
        assert(segs.deep_view()[segs@.len() - 1] == segs@[segs@.len() - 1]@);
        assert(segs.deep_view().last() == split_spec(href@, '/').last());
    }
    let last = &segs[segs.len() - 1];
    let toks = split_char(last.as_str(), '-');
    proof {
        assert(toks.deep_view()[0] == toks@[0]@);
    }
    let tok = &toks[0];
    if tok.as_str().unicode_len() == 0 {
        None
    } else {
        Some(tok.clone())
    }
}

// ---------------------------------------------------------------------------
// The flow
// ---------------------------------------------------------------------------

/// The sign-in flow's state: which step is next, and the credentials being
/// entered.
#[derive(Debug)]
pub struct AuthFlow {
    pub step: AuthStep,
    pub credentials: Credentials,
}

impl AuthFlow {
    /// Begin the sign-in sequence.
    pub fn start(credentials: Credentials) -> (flow: AuthFlow)
        ensures
            flow.step == AuthStep::NavigateSignIn,
            flow.credentials == credentials,
    {
        AuthFlow { step: AuthStep::NavigateSignIn, credentials }
    }

    /// The browser action the current step asks for; nothing once the flow
    /// has completed or failed.
    pub fn action(&self) -> (r: Option<BrowserAction>)
        ensures
            match self.step {
                AuthStep::NavigateSignIn => r matches Some(BrowserAction::Navigate { url })
                    && url@ == "https://www.goodreads.com/user/sign_in"@,
                AuthStep::OpenEmailSignIn => r matches Some(BrowserAction::Click { selector })
                    && selector@
                    == ".gr-button.gr-button--dark.gr-button--auth.authPortalConnectButton.authPortalSignInButton"@,
                AuthStep::EnterEmail => r matches Some(BrowserAction::TypeText { selector, text })
                    && selector@ == "#ap_email"@ && text == self.credentials.email,
                AuthStep::EnterPassword => r matches Some(
                    BrowserAction::TypeText { selector, text },
                ) && selector@ == "#ap_password"@ && text == self.credentials.password,
                AuthStep::Submit => r matches Some(BrowserAction::Click { selector }) && selector@
                    == "#signInSubmit"@,
                AuthStep::ReadProfileLink => r matches Some(
                    BrowserAction::ReadAttribute { selector, attribute },
                ) && selector@
                    == ".dropdown__trigger.dropdown__trigger--profileMenu.dropdown__trigger--personalNav"@
                    && attribute@ == "href"@,
                AuthStep::Complete => r is None,
                AuthStep::Failed => r is None,
            },
    {
        match self.step {
            AuthStep::NavigateSignIn => Some(
                BrowserAction::Navigate {
                    url: "https://www.goodreads.com/user/sign_in".to_owned(),
                },
            ),
            AuthStep::OpenEmailSignIn => Some(
                BrowserAction::Click {
                    selector:
                        ".gr-button.gr-button--dark.gr-button--auth.authPortalConnectButton.authPortalSignInButton".to_owned(),
                },
            ),
            AuthStep::EnterEmail => Some(
                BrowserAction::TypeText {
                    selector: "#ap_email".to_owned(),
                    text: self.credentials.email.clone(),
                },
            ),
            AuthStep::EnterPassword => Some(
                BrowserAction::TypeText {
                    selector: "#ap_password".to_owned(),
                    text: self.credentials.password.clone(),
                },
            ),
            AuthStep::Submit => Some(
                BrowserAction::Click { selector: "#signInSubmit".to_owned() },
            ),
            AuthStep::ReadProfileLink => Some(
                BrowserAction::ReadAttribute {
                    selector:
                        ".dropdown__trigger.dropdown__trigger--profileMenu.dropdown__trigger--personalNav".to_owned(),
                    attribute: "href".to_owned(),
                },
            ),
            AuthStep::Complete => None,
            AuthStep::Failed => None,
        }
    }

    /// Feed back one action's outcome.  A successful step moves to the next
    /// one; the final step parses the account identifier out of the profile
    /// link; any failure ends the flow with the phase it struck.
    pub fn advance(&mut self, outcome: BrowserOutcome) -> (r: Result<Option<String>, AuthError>)
        requires
            old(self).step != AuthStep::Complete,
            old(self).step != AuthStep::Failed,
        ensures
            final(self).credentials == old(self).credentials,
            match old(self).step {
                AuthStep::NavigateSignIn => match outcome {
                    BrowserOutcome::Done => final(self).step == AuthStep::OpenEmailSignIn && r
                        == Ok::<Option<String>, AuthError>(None),
                    _ => final(self).step == AuthStep::Failed && r == Err::<
                        Option<String>,
                        AuthError,
                    >(AuthError::SignInNavigation),
                },
                AuthStep::OpenEmailSignIn => match outcome {
                    BrowserOutcome::Done => final(self).step == AuthStep::EnterEmail && r
                        == Ok::<Option<String>, AuthError>(None),
                    _ => final(self).step == AuthStep::Failed && r == Err::<
                        Option<String>,
                        AuthError,
                    >(AuthError::CredentialEntry),
                },
                AuthStep::EnterEmail => match outcome {
                    BrowserOutcome::Done => final(self).step == AuthStep::EnterPassword && r
                        == Ok::<Option<String>, AuthError>(None),
                    _ => final(self).step == AuthStep::Failed && r == Err::<
                        Option<String>,
                        AuthError,
                    >(AuthError::CredentialEntry),
                },
                AuthStep::EnterPassword => match outcome {
                    BrowserOutcome::Done => final(self).step == AuthStep::Submit && r == Ok::<
                        Option<String>,
                        AuthError,
                    >(None),
                    _ => final(self).step == AuthStep::Failed && r == Err::<
                        Option<String>,
                        AuthError,
                    >(AuthError::CredentialEntry),
                },
                AuthStep::Submit => match outcome {
                    BrowserOutcome::Done => final(self).step == AuthStep::ReadProfileLink && r
                        == Ok::<Option<String>, AuthError>(None),
                    _ => final(self).step == AuthStep::Failed && r == Err::<
                        Option<String>,
                        AuthError,
                    >(AuthError::CredentialEntry),
                },
                AuthStep::ReadProfileLink => match outcome {
                    BrowserOutcome::Value { value: Some(href) } => match account_id_spec(href@) {
                        Some(id) => final(self).step == AuthStep::Complete && r is Ok
                            && r.unwrap() is Some && r.unwrap().unwrap()@ == id,
                        None => final(self).step == AuthStep::Failed && r == Err::<
                            Option<String>,
                            AuthError,
                        >(AuthError::AccountIdParse),
                    },
                    _ => final(self).step == AuthStep::Failed && r == Err::<
                        Option<String>,
                        AuthError,
                    >(AuthError::IdentifierLookup),
                },
                _ => false,
            },
    {
        match self.step {
            AuthStep::NavigateSignIn => match outcome {
                BrowserOutcome::Done => {
                    self.step = AuthStep::OpenEmailSignIn;
                    Ok(None)
                },
                _ => {
                    self.step = AuthStep::Failed;
                    Err(AuthError::SignInNavigation)
                },
            },
            AuthStep::OpenEmailSignIn => match outcome {
                BrowserOutcome::Done => {
                    self.step = AuthStep::EnterEmail;
                    Ok(None)
                },
                _ => {
                    self.step = AuthStep::Failed;
                    Err(AuthError::CredentialEntry)
                },
            },
            AuthStep::EnterEmail => match outcome {
                BrowserOutcome::Done => {
                    self.step = AuthStep::EnterPassword;
                    Ok(None)
                },
                _ => {
                    self.step = AuthStep::Failed;
                    Err(AuthError::CredentialEntry)
                },
            },
            AuthStep::EnterPassword => match outcome {
                BrowserOutcome::Done => {
                    self.step = AuthStep::Submit;
                    Ok(None)
                },
                _ => {
                    self.step = AuthStep::Failed;
                    Err(AuthError::CredentialEntry)
                },
            },
            AuthStep::Submit => match outcome {
                BrowserOutcome::Done => {
                    self.step = AuthStep::ReadProfileLink;
                    Ok(None)
                },
                _ => {
                    self.step = AuthStep::Failed;
                    Err(AuthError::CredentialEntry)
                },
            },
            AuthStep::ReadProfileLink => match outcome {
                BrowserOutcome::Value { value: Some(href) } => match parse_account_id(
                    href.as_str(),
                ) {
                    Some(id) => {
                        self.step = AuthStep::Complete;
                        Ok(Some(id))
                    },
                    None => {
                        self.step = AuthStep::Failed;
                        Err(AuthError::AccountIdParse)
                    },
                },
                _ => {
                    self.step = AuthStep::Failed;
                    Err(AuthError::IdentifierLookup)
                },
            },
            AuthStep::Complete => Err(AuthError::IdentifierLookup),
            AuthStep::Failed => Err(AuthError::IdentifierLookup),
        }
    }
}

} // verus!
