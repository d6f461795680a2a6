//! The session orchestrator: a single state machine that sequences browser
//! opening, sign-in, the catalog scrape and the detail pipeline, takes
//! UI-originated commands, and emits events back to the UI.  All outside
//! work is delegated: each transition may return an action for the
//! application shell to perform, whose result comes back as a later input.
//! An input a state cannot handle is refused with `Error::InvalidState` and
//! leaves the state untouched.

use vstd::prelude::*;
use crate::auth::AuthError;
use crate::book::{Book, DetailError};
use crate::browser::DriverConfig;
use crate::catalog::{CatalogEntry, CatalogError};
use crate::helpers::Credentials;
use crate::pipeline::{slot_for, FetchSlot};

verus! {

/// Why the browser-automation endpoint could not be opened.
#[derive(Clone, Copy, Debug, PartialEq, Eq, Structural)]
pub enum BrowserError {
    /// The driver process could not be started.
    DriverSpawn,
    /// No automation session could be established at the endpoint within
    /// the bounded timeout.
    EndpointUnreachable,
}

impl BrowserError {
    /// What `message` returns for each failure.
    pub open spec fn message_spec(self) -> Seq<char> {
        match self {
            BrowserError::DriverSpawn => "could not start the driver process"@,
            BrowserError::EndpointUnreachable => "could not reach the automation endpoint"@,
        }
    }

    /// A short description, for the application shell to display.
    pub fn message(&self) -> (r: String)
        ensures
            r@ == self.message_spec(),
    {
        match self {
            BrowserError::DriverSpawn => "could not start the driver process".to_owned(),
            BrowserError::EndpointUnreachable => "could not reach the automation endpoint"
                .to_owned(),
        }
    }
}

/// A session-level failure, reported as an event and rolling the session
/// back to a safe state.
#[derive(Debug)]
pub enum Error {
    /// An input was addressed to a state that cannot handle it.
    InvalidState { state: String, message: String },
    /// The browser endpoint was unreachable; the launch attempt failed.
    BrowserConnection(BrowserError),
    /// Sign-in failed, or the account identifier could not be extracted.
    Authentication(AuthError),
    /// The catalog scrape was abandoned.
    Catalog(CatalogError),
}

impl Error {
    /// What `message` returns for each failure.
    pub open spec fn message_spec(self) -> Seq<char> {
        match self {
            Error::InvalidState { state, message } => "cannot handle "@ + message@
                + " in state "@ + state@,
            Error::BrowserConnection(e) => e.message_spec(),
            Error::Authentication(e) => e.message_spec(),
            Error::Catalog(e) => e.message_spec(),
        }
    }

    /// A short description, for the application shell to display.
    pub fn message(&self) -> (r: String)
        ensures
            r@ == self.message_spec(),
    {
        match self {
            Error::InvalidState { state, message } => {
                let mut s = "cannot handle ".to_owned();
                s.append(message.as_str());
                s.append(" in state ");
                s.append(state.as_str());
                s
            },
            Error::BrowserConnection(e) => e.message(),
            Error::Authentication(e) => e.message(),
            Error::Catalog(e) => e.message(),
        }
    }
}

/// The orchestrator's state: nothing yet, signing in, or serving a scraped
/// catalog.  `Authenticating` keeps the credentials being used and, once
/// sign-in has succeeded, the account identifier while the catalog is still
/// being scraped.  While `Ready`, `slots[i]` tracks the detail fetch of
/// `catalog[i]` and `selected` the UI's current selection.
#[derive(Debug)]
pub enum State {
    Uninitialized,
    Authenticating { credentials: Credentials, user_id: Option<String> },
    Ready {
        user_id: String,
        catalog: Vec<CatalogEntry>,
        slots: Vec<FetchSlot>,
        selected: Option<usize>,
    },
}

/// Everything the orchestrator can be told: UI commands and the results of
/// the outside work it asked for.
#[derive(Debug)]
pub enum Input {
    /// UI command: open a session with this configuration and sign in.
    Launch { config: DriverConfig, credentials: Credentials },
    /// The shell opened (or failed to open) the browser endpoint.  The
    /// launch's credentials travel with the report, so a failed attempt
    /// leaves nothing behind in the `Uninitialized` state.
    BrowserOpened { credentials: Credentials, result: Result<(), BrowserError> },
    /// The shell ran the sign-in flow.
    Authenticated { result: Result<String, AuthError> },
    /// The shell fetched and scraped the catalog pages.
    CatalogScraped { result: Result<Vec<CatalogEntry>, CatalogError> },
    /// The detail pipeline resolved one entry.
    DetailArrived { index: usize, result: Result<Book, DetailError> },
    /// UI command: select a catalog item.
    SelectItem { index: usize },
}

/// Events the orchestrator emits to the UI.
#[derive(Debug)]
pub enum Output {
    /// The browser endpoint is open.
    Connected,
    /// Sign-in succeeded for this account.
    LoginSucceeded { user_id: String },
    /// The catalog is scraped; this many detail fetches are pending.
    CatalogReady { count: usize },
    /// One detail slot resolved, successfully or not.
    DetailArrived { index: usize, ok: bool },
    /// A session-level failure; the state has rolled back.
    Error { error: Error },
}

/// Outside work the application shell must perform after a transition.
#[derive(Debug)]
pub enum Action {
    /// Open the browser endpoint, then report `BrowserOpened`.
    OpenBrowser { config: DriverConfig, credentials: Credentials },
    /// Run the sign-in flow, then report `Authenticated`.
    RunAuthentication { credentials: Credentials },
    /// Fetch and scrape the catalog pages, then report `CatalogScraped`.
    RunScrape { user_id: String },
    /// Start the detail pipeline over the scraped catalog; each completion
    /// comes back as `DetailArrived`.
    StartPipeline,
}

/// The name of a state, for `Error::InvalidState`.
pub open spec fn state_label_spec(s: State) -> Seq<char> {
    match s {
        State::Uninitialized => "Uninitialized"@,
        State::Authenticating { .. } => "Authenticating"@,
        State::Ready { .. } => "Ready"@,
    }
}

/// The name of an input, for `Error::InvalidState`.
pub open spec fn input_label_spec(i: Input) -> Seq<char> {
    match i {
        Input::Launch { .. } => "Launch"@,
        Input::BrowserOpened { .. } => "BrowserOpened"@,
        Input::Authenticated { .. } => "Authenticated"@,
        Input::CatalogScraped { .. } => "CatalogScraped"@,
        Input::DetailArrived { .. } => "DetailArrived"@,
        Input::SelectItem { .. } => "SelectItem"@,
    }
}

fn state_label(s: &State) -> (r: String)
    ensures
        r@ == state_label_spec(*s),
{
    match s {
        State::Uninitialized => "Uninitialized".to_owned(),
        State::Authenticating { .. } => "Authenticating".to_owned(),
        State::Ready { .. } => "Ready".to_owned(),
    }
}

fn input_label(i: &Input) -> (r: String)
    ensures
        r@ == input_label_spec(*i),
{
    match i {
        Input::Launch { .. } => "Launch".to_owned(),
        Input::BrowserOpened { .. } => "BrowserOpened".to_owned(),
        Input::Authenticated { .. } => "Authenticated".to_owned(),
        Input::CatalogScraped { .. } => "CatalogScraped".to_owned(),
        Input::DetailArrived { .. } => "DetailArrived".to_owned(),
        Input::SelectItem { .. } => "SelectItem".to_owned(),
    }
}

/// The refusal of an input the pre-state cannot handle: the state is
/// untouched and the error names both.
pub open spec fn refused(
    pre: State,
    post: State,
    input: Input,
    r: Result<(Option<Output>, Option<Action>), Error>,
) -> bool {
    &&& post == pre
    &&& r matches Err(Error::InvalidState { state, message }) && state@ == state_label_spec(pre)
        && message@ == input_label_spec(input)
}

/// The orchestrator's whole transition relation: for every pre-state and
/// input, the post-state, emitted event, requested action and result.
pub open spec fn step_post(
    pre: State,
    post: State,
    input: Input,
    r: Result<(Option<Output>, Option<Action>), Error>,
) -> bool {
    match input {
        Input::Launch { config, credentials } => match pre {
            State::Uninitialized => post == pre && r == Ok::<_, Error>(
                (
                    None::<Output>,
                    Some(Action::OpenBrowser { config, credentials }),
                ),
            ),
            _ => refused(pre, post, input, r),
        },
        Input::BrowserOpened { credentials, result } => match pre {
            State::Uninitialized => match result {
                Ok(_) => post == State::Authenticating { credentials, user_id: None }
                    && r == Ok::<_, Error>(
                    (
                        Some(Output::Connected),
                        Some(Action::RunAuthentication { credentials }),
                    ),
                ),
                Err(e) => post == pre && r == Ok::<_, Error>(
                    (
                        Some(Output::Error { error: Error::BrowserConnection(e) }),
                        None::<Action>,
                    ),
                ),
            },
            _ => refused(pre, post, input, r),
        },
        Input::Authenticated { result } => match pre {
            State::Authenticating { credentials, user_id: None } => match result {
                Ok(user) => post == State::Authenticating {
                    credentials,
                    user_id: Some(user),
                } && r == Ok::<_, Error>(
                    (
                        Some(Output::LoginSucceeded { user_id: user }),
                        Some(Action::RunScrape { user_id: user }),
                    ),
                ),
                Err(e) => post == State::Uninitialized && r == Ok::<_, Error>(
                    (
                        Some(Output::Error { error: Error::Authentication(e) }),
                        None::<Action>,
                    ),
                ),
            },
            _ => refused(pre, post, input, r),
        },
        Input::CatalogScraped { result } => match pre {
            State::Authenticating { credentials: _, user_id: Some(user) } => match result {
                Ok(entries) => {
                    &&& match post {
                        State::Ready { user_id, catalog, slots, selected } => {
                            &&& user_id == user
                            &&& catalog == entries
                            &&& selected is None
                            &&& slots@.len() == entries@.len()
                            &&& forall|i: int|
                                0 <= i < slots@.len() ==> #[trigger] slots@[i] is Pending
                        },
                        _ => false,
                    }
                    &&& r matches Ok(
                        (Some(Output::CatalogReady { count }), Some(Action::StartPipeline)),
                    ) && count == entries@.len()
                },
                Err(e) => post == State::Uninitialized && r == Ok::<_, Error>(
                    (
                        Some(Output::Error { error: Error::Catalog(e) }),
                        None::<Action>,
                    ),
                ),
            },
            _ => refused(pre, post, input, r),
        },
        Input::DetailArrived { index, result } => match pre {
            State::Ready { user_id, catalog, slots, selected } => {
                if index < slots@.len() && slots@[index as int] is Pending {
                    &&& match post {
                        State::Ready { user_id: u2, catalog: c2, slots: s2, selected: sel2 } => {
                            &&& u2 == user_id
                            &&& c2 == catalog
                            &&& sel2 == selected
                            &&& s2@ == slots@.update(index as int, slot_for(result))
                        },
                        _ => false,
                    }
                    &&& r == Ok::<_, Error>(
                        (
                            Some(Output::DetailArrived { index, ok: result is Ok }),
                            None::<Action>,
                        ),
                    )
                } else {
                    refused(pre, post, input, r)
                }
            },
            _ => refused(pre, post, input, r),
        },
        Input::SelectItem { index } => match pre {
            State::Ready { user_id, catalog, slots, selected } => {
                &&& r == Ok::<_, Error>((None::<Output>, None::<Action>))
                &&& if index < catalog@.len() {
                    match post {
                        State::Ready { user_id: u2, catalog: c2, slots: s2, selected: sel2 } => {
                            &&& u2 == user_id
                            &&& c2 == catalog
                            &&& s2 == slots
                            &&& sel2 == Some(index)
                        },
                        _ => false,
                    }
                } else {
                    post == pre
                }
            },
            _ => refused(pre, post, input, r),
        },
    }
}

/// The orchestrator.  It owns the session state; the exclusively owned
/// browser endpoint lives with the application shell, which opens it on
/// `Action::OpenBrowser` and must release it on every exit path.
#[derive(Debug)]
pub struct Backend {
    pub state: State,
}

impl Default for Backend {
    fn default() -> (r: Self)
        ensures
            r.state == State::Uninitialized,
    {
        Backend { state: State::Uninitialized }
    }
}

fn pending_slots(n: usize) -> (r: Vec<FetchSlot>)
    ensures
        r@.len() == n,
        forall|i: int| 0 <= i < n ==> #[trigger] r@[i] is Pending,
{
    let mut slots: Vec<FetchSlot> = Vec::new();
    while slots.len() < n
        invariant
            slots@.len() <= n,
            forall|i: int| 0 <= i < slots@.len() ==> #[trigger] slots@[i] is Pending,
        decreases n - slots@.len(),
    {
        slots.push(FetchSlot::Pending);
    }
    slots
}

impl Backend {
    /// Process one input to completion: decide the transition, the event
    /// for the UI and the outside work for the shell.  Inputs are meant to
    /// be processed one at a time, in arrival order.
    pub fn update(&mut self, input: Input) -> (r: Result<(Option<Output>, Option<Action>), Error>)
        ensures
            step_post(old(self).state, final(self).state, input, r),
    {
        let slabel = state_label(&self.state);
        let ilabel = input_label(&input);
        match input {
            Input::Launch { config, credentials } => match &self.state {
                State::Uninitialized => Ok(
                    (None, Some(Action::OpenBrowser { config, credentials })),
                ),
                _ => Err(Error::InvalidState { state: slabel, message: ilabel }),
            },
            Input::BrowserOpened { credentials, result } => {
                match &self.state {
                    State::Uninitialized => {},
                    _ => {
                        return Err(Error::InvalidState { state: slabel, message: ilabel });
                    },
                }
                match result {
                    Ok(_) => {
                        let for_action = credentials.clone();
                        self.state = State::Authenticating { credentials, user_id: None };
                        Ok(
                            (
                                Some(Output::Connected),
                                Some(Action::RunAuthentication { credentials: for_action }),
                            ),
                        )
                    },
                    Err(e) => Ok(
                        (Some(Output::Error { error: Error::BrowserConnection(e) }), None),
                    ),
                }
            },
            Input::Authenticated { result } => {
                let creds = match &self.state {
                    State::Authenticating { credentials, user_id: None } => credentials.clone(),
                    _ => {
                        return Err(Error::InvalidState { state: slabel, message: ilabel });
                    },
                };
                match result {
                    Ok(user) => {
                        let for_event = user.clone();
                        let for_action = user.clone();
                        self.state = State::Authenticating {
                            credentials: creds,
                            user_id: Some(user),
                        };
                        Ok(
                            (
                                Some(Output::LoginSucceeded { user_id: for_event }),
                                Some(Action::RunScrape { user_id: for_action }),
                            ),
                        )
                    },
                    Err(e) => {
                        self.state = State::Uninitialized;
                        Ok((Some(Output::Error { error: Error::Authentication(e) }), None))
                    },
                }
            },
            Input::CatalogScraped { result } => {
                let user = match &self.state {
                    State::Authenticating { credentials: _, user_id: Some(user) } => user.clone(),
                    _ => {
                        return Err(Error::InvalidState { state: slabel, message: ilabel });
                    },
                };
                match result {
                    Ok(entries) => {
                        let count = entries.len();
                        let slots = pending_slots(count);
                        self.state = State::Ready {
                            user_id: user,
                            catalog: entries,
                            slots,
                            selected: None,
                        };
                        Ok(
                            (
                                Some(Output::CatalogReady { count }),
                                Some(Action::StartPipeline),
                            ),
                        )
                    },
                    Err(e) => {
                        self.state = State::Uninitialized;
                        Ok((Some(Output::Error { error: Error::Catalog(e) }), None))
                    },
                }
            },
            Input::DetailArrived { index, result } => match &mut self.state {
                State::Ready { user_id: _, catalog: _, slots, selected: _ } => {
                    if index < slots.len() && slot_is_pending(&slots[index]) {
                        let ok = result.is_ok();
                        let slot = match result {
                            Ok(b) => FetchSlot::Success(b),
                            Err(e) => FetchSlot::Failed(e),
                        };
                        slots.set(index, slot);
                        Ok((Some(Output::DetailArrived { index, ok }), None))
                    } else {
                        Err(Error::InvalidState { state: slabel, message: ilabel })
                    }
                },
                _ => Err(Error::InvalidState { state: slabel, message: ilabel }),
            },
            Input::SelectItem { index } => match &mut self.state {
                State::Ready { user_id: _, catalog, slots: _, selected } => {
                    if index < catalog.len() {
                        *selected = Some(index);
                    }
                    Ok((None, None))
                },
                _ => Err(Error::InvalidState { state: slabel, message: ilabel }),
            },
        }
    }
}

fn slot_is_pending(s: &FetchSlot) -> (r: bool)
    ensures
        r == (*s is Pending),
{
    match s {
        FetchSlot::Pending => true,
        _ => false,
    }
}

} // verus!
