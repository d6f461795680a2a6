use godric::auth::{
    parse_account_id, AuthError, AuthFlow, AuthStep, BrowserAction, BrowserOutcome,
};
use godric::backend::{Action, Backend, BrowserError, Error, Input, Output, State};
use godric::book::Book;
use godric::browser::{Browser, DriverConfig, EndpointAddress};
use godric::catalog::CatalogEntry;
use godric::helpers::Credentials;
use godric::pipeline::FetchSlot;
use godric::scene::{goodreads, launch, login, message_of_output, Message, Scene};

fn config() -> DriverConfig {
    DriverConfig {
        browser: Browser::Firefox,
        driver_address: EndpointAddress::new(127, 0, 0, 1, 4444),
        headless: true,
    }
}

fn credentials() -> Credentials {
    Credentials::new("user@example.com".to_string(), "secret".to_string())
}

fn entry(position: u64, title: &str) -> CatalogEntry {
    CatalogEntry {
        position,
        title: title.to_string(),
        url: format!("https://goodreads.com/book/show/{position}"),
    }
}

#[test]
fn account_id_comes_from_last_segment_token() {
    assert_eq!(
        parse_account_id("https://www.goodreads.com/user/show/176878294-testy-mctestface"),
        Some("176878294".to_string())
    );
    assert_eq!(parse_account_id("plain"), Some("plain".to_string()));
    assert_eq!(parse_account_id("https://www.goodreads.com/user/show/"), None);
    assert_eq!(parse_account_id("https://www.goodreads.com/user/show/-anon"), None);
    assert_eq!(parse_account_id(""), None);
}

#[test]
fn auth_flow_walks_the_sign_in_sequence() {
    let mut flow = AuthFlow::start(credentials());
    assert!(matches!(
        flow.action(),
        Some(BrowserAction::Navigate { url }) if url == "https://www.goodreads.com/user/sign_in"
    ));
    assert_eq!(flow.advance(BrowserOutcome::Done), Ok(None));
    assert!(matches!(flow.action(), Some(BrowserAction::Click { .. })));
    assert_eq!(flow.advance(BrowserOutcome::Done), Ok(None));
    assert!(matches!(
        flow.action(),
        Some(BrowserAction::TypeText { selector, text })
            if selector == "#ap_email" && text == "user@example.com"
    ));
    assert_eq!(flow.advance(BrowserOutcome::Done), Ok(None));
    assert!(matches!(
        flow.action(),
        Some(BrowserAction::TypeText { selector, text })
            if selector == "#ap_password" && text == "secret"
    ));
    assert_eq!(flow.advance(BrowserOutcome::Done), Ok(None));
    assert!(matches!(
        flow.action(),
        Some(BrowserAction::Click { selector }) if selector == "#signInSubmit"
    ));
    assert_eq!(flow.advance(BrowserOutcome::Done), Ok(None));
    assert!(matches!(
        flow.action(),
        Some(BrowserAction::ReadAttribute { attribute, .. }) if attribute == "href"
    ));
    let done = flow.advance(BrowserOutcome::Value {
        value: Some("https://www.goodreads.com/user/show/176878294-testy".to_string()),
    });
    assert_eq!(done, Ok(Some("176878294".to_string())));
    assert_eq!(flow.step, AuthStep::Complete);
    assert!(flow.action().is_none());
}

#[test]
fn auth_flow_wraps_failures_with_their_phase() {
    let mut flow = AuthFlow::start(credentials());
    assert_eq!(
        flow.advance(BrowserOutcome::ProtocolError),
        Err(AuthError::SignInNavigation)
    );
    assert_eq!(flow.step, AuthStep::Failed);

    let mut flow = AuthFlow::start(credentials());
    flow.advance(BrowserOutcome::Done).unwrap();
    assert_eq!(
        flow.advance(BrowserOutcome::ElementNotFound),
        Err(AuthError::CredentialEntry)
    );

    let mut flow = AuthFlow::start(credentials());
    for _ in 0..5 {
        flow.advance(BrowserOutcome::Done).unwrap();
    }
    assert_eq!(
        flow.advance(BrowserOutcome::ElementNotFound),
        Err(AuthError::IdentifierLookup)
    );
}

#[test]
fn profile_link_without_identifier_fails_account_parse() {
    let mut flow = AuthFlow::start(credentials());
    for _ in 0..5 {
        flow.advance(BrowserOutcome::Done).unwrap();
    }
    let r = flow.advance(BrowserOutcome::Value {
        value: Some("https://www.goodreads.com/user/show/-anon".to_string()),
    });
    assert_eq!(r, Err(AuthError::AccountIdParse));
    assert_eq!(flow.step, AuthStep::Failed);
}

#[test]
fn unreachable_driver_leaves_orchestrator_uninitialized() {
    let mut backend = Backend::default();
    let r = backend
        .update(Input::Launch { config: config(), credentials: credentials() })
        .unwrap();
    assert!(matches!(r.1, Some(Action::OpenBrowser { .. })));
    assert!(matches!(backend.state, State::Uninitialized));

    let r = backend
        .update(Input::BrowserOpened {
            credentials: credentials(),
            result: Err(BrowserError::EndpointUnreachable),
        })
        .unwrap();
    assert!(matches!(
        r.0,
        Some(Output::Error { error: Error::BrowserConnection(BrowserError::EndpointUnreachable) })
    ));
    assert!(r.1.is_none());
    assert!(matches!(backend.state, State::Uninitialized));
}

#[test]
fn account_parse_failure_rolls_back_to_uninitialized() {
    let mut backend = Backend::default();
    backend
        .update(Input::Launch { config: config(), credentials: credentials() })
        .unwrap();
    let r = backend
        .update(Input::BrowserOpened { credentials: credentials(), result: Ok(()) })
        .unwrap();
    assert!(matches!(r.0, Some(Output::Connected)));
    assert!(matches!(r.1, Some(Action::RunAuthentication { .. })));
    assert!(matches!(backend.state, State::Authenticating { .. }));

    let r = backend
        .update(Input::Authenticated { result: Err(AuthError::AccountIdParse) })
        .unwrap();
    assert!(matches!(
        r.0,
        Some(Output::Error { error: Error::Authentication(AuthError::AccountIdParse) })
    ));
    assert!(matches!(backend.state, State::Uninitialized));
}

#[test]
fn happy_path_reaches_ready_and_fills_slots() {
    let mut backend = Backend::default();
    backend
        .update(Input::Launch { config: config(), credentials: credentials() })
        .unwrap();
    backend
        .update(Input::BrowserOpened { credentials: credentials(), result: Ok(()) })
        .unwrap();
    let r = backend
        .update(Input::Authenticated { result: Ok("176878294".to_string()) })
        .unwrap();
    assert!(matches!(r.0, Some(Output::LoginSucceeded { user_id }) if user_id == "176878294"));
    assert!(matches!(r.1, Some(Action::RunScrape { user_id }) if user_id == "176878294"));

    let catalog = vec![entry(1, "First"), entry(2, "Second")];
    let r = backend
        .update(Input::CatalogScraped { result: Ok(catalog) })
        .unwrap();
    assert!(matches!(r.0, Some(Output::CatalogReady { count: 2 })));
    assert!(matches!(r.1, Some(Action::StartPipeline)));
    match &backend.state {
        State::Ready { user_id, catalog, slots, selected } => {
            assert_eq!(user_id, "176878294");
            assert_eq!(catalog.len(), 2);
            assert_eq!(slots.len(), 2);
            assert!(slots.iter().all(|s| matches!(s, FetchSlot::Pending)));
            assert!(selected.is_none());
        },
        other => panic!("not ready: {other:?}"),
    }

    let mut book = Book::default();
    book.title = "First".to_string();
    let r = backend
        .update(Input::DetailArrived { index: 0, result: Ok(book) })
        .unwrap();
    assert!(matches!(r.0, Some(Output::DetailArrived { index: 0, ok: true })));

    // The same slot cannot resolve twice.
    let r = backend.update(Input::DetailArrived { index: 0, result: Ok(Book::default()) });
    assert!(matches!(r, Err(Error::InvalidState { .. })));

    backend.update(Input::SelectItem { index: 1 }).unwrap();
    assert!(matches!(backend.state, State::Ready { selected: Some(1), .. }));

    // Out-of-range selection is a no-op.
    backend.update(Input::SelectItem { index: 9 }).unwrap();
    assert!(matches!(backend.state, State::Ready { selected: Some(1), .. }));
}

#[test]
fn launch_while_ready_is_refused() {
    let mut backend = Backend::default();
    backend
        .update(Input::Launch { config: config(), credentials: credentials() })
        .unwrap();
    backend
        .update(Input::BrowserOpened { credentials: credentials(), result: Ok(()) })
        .unwrap();
    backend
        .update(Input::Authenticated { result: Ok("1".to_string()) })
        .unwrap();
    backend
        .update(Input::CatalogScraped { result: Ok(vec![entry(1, "T")]) })
        .unwrap();
    let r = backend.update(Input::Launch { config: config(), credentials: credentials() });
    match r {
        Err(Error::InvalidState { state, message }) => {
            assert_eq!(state, "Ready");
            assert_eq!(message, "Launch");
        },
        other => panic!("not refused: {other:?}"),
    }
    let text = Error::InvalidState { state: "Ready".to_string(), message: "Launch".to_string() }
        .message();
    assert_eq!(text, "cannot handle Launch in state Ready");
}

#[test]
fn scene_flow_from_launch_to_catalog() {
    let mut scene = Scene::default();

    // Editing and attempting the launch moves to credential entry.
    scene.update(Message::Launch(launch::Message::ServerPortInput("4445".to_string())));
    let out = scene.update(Message::Launch(launch::Message::LaunchAttempt));
    assert!(out.is_none());
    assert!(matches!(
        &scene.state,
        godric::scene::State::Goodreads(goodreads::State::Welcome(w))
            if w.config.driver_address.port == 4445
    ));

    // Entering credentials and signing in emits the backend launch command.
    scene.update(Message::Goodreads(goodreads::Message::Welcome(
        goodreads::welcome::Message::EmailInput("user@example.com".to_string()),
    )));
    scene.update(Message::Goodreads(goodreads::Message::Welcome(
        goodreads::welcome::Message::PasswordInput("secret".to_string()),
    )));
    let out = scene.update(Message::Goodreads(goodreads::Message::Welcome(
        goodreads::welcome::Message::LoginAttempt,
    )));
    assert!(matches!(
        out,
        Some(Input::Launch { credentials, .. }) if credentials.email == "user@example.com"
    ));

    // Backend events step the scene to the catalog screen.
    let m = message_of_output(Output::LoginSucceeded { user_id: "176878294".to_string() });
    scene.update(m);
    let m = message_of_output(Output::CatalogReady { count: 3 });
    scene.update(m);
    let m = message_of_output(Output::DetailArrived { index: 1, ok: true });
    scene.update(m);
    scene.update(Message::Goodreads(goodreads::Message::Home(
        goodreads::home::Message::BookSelected { index: 2 },
    )));
    match &scene.state {
        godric::scene::State::Goodreads(goodreads::State::Home(h)) => {
            assert_eq!(h.user_id, "176878294");
            assert_eq!(h.slot_count, 3);
            assert_eq!(h.resolved, vec![false, true, false]);
            assert_eq!(h.selected, Some(2));
        },
        other => panic!("not on the catalog screen: {other:?}"),
    }
}

#[test]
fn invalid_endpoint_text_keeps_the_launch_screen() {
    let mut scene = Scene::default();
    scene.update(Message::Launch(launch::Message::ServerAddressInput("not-an-ip".to_string())));
    let out = scene.update(Message::Launch(launch::Message::LaunchAttempt));
    assert!(out.is_none());
    assert!(matches!(scene.state, godric::scene::State::Launch(_)));
}

#[test]
fn login_form_emits_launch_once_it_parses() {
    let form = login::Login::default();
    let (form, out) = form.update(login::Message::EmailInput("user@example.com".to_string()));
    let (form, out2) = form.update(login::Message::PasswordInput("secret".to_string()));
    assert!(out.is_none() && out2.is_none());
    let (form, out) = form.update(login::Message::AttemptLogin);
    assert!(matches!(
        out,
        Some(Input::Launch { config, credentials })
            if credentials.email == "user@example.com" && config.driver_address.port == 4444
    ));
    let (form, out) = form.update(login::Message::ServerPortInput("high".to_string()));
    assert!(out.is_none());
    let (_, out) = form.update(login::Message::AttemptLogin);
    assert!(out.is_none());
}

#[test]
fn error_events_become_display_messages() {
    let m = message_of_output(Output::Error {
        error: Error::Catalog(godric::catalog::CatalogError::PageCountParse),
    });
    assert!(matches!(m, Message::ErrorReported { text } if text == "failed to parse the page count"));
}
