use auth_gate::bearer::bearer_token;
use auth_gate::client::{api_authorization, AuthConfig, ClientEvent, Command, Session, SignIn, User};

fn config() -> AuthConfig {
    AuthConfig { domain: "issuer.example".to_string(), client_id: "client-1".to_string() }
}

fn user() -> User {
    User {
        nickname: "u".to_string(),
        name: "User One".to_string(),
        picture: "https://issuer.example/u.png".to_string(),
        updated_at: "2023-11-14T22:13:20Z".to_string(),
        email: "user1@issuer.example".to_string(),
        email_verified: true,
        sub: "user1".to_string(),
    }
}

fn holds_nothing(session: &Session) -> bool {
    session.user.is_none()
        && session.auth_config.is_none()
        && session.token.is_none()
        && session.api_response.is_none()
}

#[test]
fn new_session_holds_nothing() {
    assert!(holds_nothing(&Session::new()));
}

#[test]
fn fetched_config_starts_the_providers_library() {
    let mut session = Session::new();
    match session.update(ClientEvent::AuthConfigFetched(Some(config()))) {
        Command::InitAuth { domain, client_id } => {
            assert_eq!(domain, "issuer.example");
            assert_eq!(client_id, "client-1");
        }
        _ => panic!("no start of the provider's library"),
    }
    let held = session.auth_config.as_ref().expect("config");
    assert_eq!(held.domain, "issuer.example");
    assert_eq!(held.client_id, "client-1");
    assert_eq!(format!("{:?}", held), "AuthConfig { domain: \"issuer.example\", client_id: \"client-1\" }");
    assert!(session.user.is_none());
}

#[test]
fn failures_change_nothing() {
    let events = [
        ClientEvent::AuthConfigFetched(None),
        ClientEvent::AuthInitialized { report: None, has_code: true, has_state: true },
        ClientEvent::Redirected(true),
        ClientEvent::Redirected(false),
        ClientEvent::LoggedOut(false),
        ClientEvent::TokenFetched(None),
        ClientEvent::ApiFetched(None),
    ];
    for event in events {
        let mut session = Session::new();
        session.token = Some("t".to_string());
        session.user = Some(user());
        assert!(matches!(session.update(event), Command::Nothing));
        assert_eq!(session.token.as_deref(), Some("t"));
        assert!(session.user.is_some());
        assert!(session.auth_config.is_none());
        assert!(session.api_response.is_none());
    }
}

#[test]
fn started_library_reports_the_user_and_cleans_the_address() {
    let mut session = Session::new();
    let command = session.update(ClientEvent::AuthInitialized {
        report: Some(SignIn::Somebody(user())),
        has_code: true,
        has_state: true,
    });
    assert!(matches!(
        command,
        Command::CleanAddress { remove_code: true, remove_state: true, replace: true }
    ));
    assert_eq!(session.user.as_ref().map(|u| u.sub.as_str()), Some("user1"));

    let mut session = Session::new();
    let command = session.update(ClientEvent::AuthInitialized {
        report: Some(SignIn::Nobody),
        has_code: true,
        has_state: false,
    });
    assert!(matches!(
        command,
        Command::CleanAddress { remove_code: true, remove_state: false, replace: false }
    ));
    assert!(session.user.is_none());

    let mut session = Session::new();
    session.user = Some(user());
    let command = session.update(ClientEvent::AuthInitialized {
        report: Some(SignIn::Undecodable),
        has_code: false,
        has_state: true,
    });
    assert!(matches!(
        command,
        Command::CleanAddress { remove_code: false, remove_state: false, replace: false }
    ));
    assert!(session.user.is_some());
}

#[test]
fn requests_of_the_user_become_commands() {
    let mut session = Session::new();
    assert!(matches!(session.update(ClientEvent::SignUp), Command::RedirectToSignUp));
    assert!(matches!(session.update(ClientEvent::LogIn), Command::RedirectToLogIn));
    assert!(matches!(session.update(ClientEvent::ShowToken), Command::GetToken));
    assert!(matches!(session.update(ClientEvent::CallApi), Command::CallApi));
    assert!(holds_nothing(&session));
}

#[test]
fn log_out_forgets_the_user() {
    let mut session = Session::new();
    session.user = Some(user());
    session.token = Some("t".to_string());
    assert!(matches!(session.update(ClientEvent::LoggedOut(true)), Command::Nothing));
    assert!(session.user.is_none());
    assert_eq!(session.token.as_deref(), Some("t"));
}

#[test]
fn token_and_answer_are_kept() {
    let mut session = Session::new();
    let event = ClientEvent::TokenFetched(Some(Some("a.b.c".to_string())));
    assert!(matches!(session.update(event), Command::Nothing));
    assert_eq!(session.token.as_deref(), Some("a.b.c"));
    assert!(matches!(session.update(ClientEvent::TokenFetched(Some(None))), Command::Nothing));
    assert!(session.token.is_none());
    let event = ClientEvent::ApiFetched(Some("Authorization Failed".to_string()));
    assert!(matches!(session.update(event), Command::Nothing));
    assert_eq!(session.api_response.as_deref(), Some("Authorization Failed"));
}

#[test]
fn api_is_called_with_a_bearer_header() {
    assert_eq!(api_authorization(Some("a.b.c")), "Bearer a.b.c");
    assert_eq!(api_authorization(None), "Bearer ");
    assert_eq!(bearer_token(&api_authorization(Some("a.b.c"))), Some("a.b.c".to_string()));
    assert_eq!(bearer_token(&api_authorization(None)), None);
}
