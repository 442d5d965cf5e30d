//! The signed-in session of a browser client: what it holds, and what each
//! event makes of it.
//!
//! The session decides; it neither fetches nor redirects. Its caller carries
//! out the command that `update` returns and reports what came of it as the
//! next event.

use crate::bearer::bearer_header;
use vstd::prelude::*;
use vstd::string::*;

verus! {

/// How to reach the identity provider.
#[derive(Debug)]
pub struct AuthConfig {
    /// The provider's domain.
    pub domain: String,
    /// The identifier of this client at the provider.
    pub client_id: String,
}

/// The signed-in user, as the provider describes them.
#[derive(Debug)]
pub struct User {
    pub nickname: String,
    pub name: String,
    pub picture: String,
    pub updated_at: String,
    pub email: String,
    pub email_verified: bool,
    pub sub: String,
}

/// What the client holds.
pub struct Session {
    /// The signed-in user, if any.
    pub user: Option<User>,
    /// The provider's settings, once fetched.
    pub auth_config: Option<AuthConfig>,
    /// The token last shown.
    pub token: Option<String>,
    /// The last answer of the API.
    pub api_response: Option<String>,
}

/// What the provider's library reported about the user when it started.
pub enum SignIn {
    /// Nobody is signed in.
    Nobody,
    /// The user who is signed in.
    Somebody(User),
    /// A user whose description could not be decoded.
    Undecodable,
}

/// What happened.
pub enum ClientEvent {
    /// The provider's settings arrived, or their fetch failed.
    AuthConfigFetched(Option<AuthConfig>),
    /// The provider's library started, or failed to. The flags say whether
    /// the page address carries the query keys `code` and `state`.
    AuthInitialized { report: Option<SignIn>, has_code: bool, has_state: bool },
    /// The user asked to sign up.
    SignUp,
    /// The user asked to log in.
    LogIn,
    /// A redirect to the provider was started, or failed.
    Redirected(bool),
    /// The user asked to log out, and the provider's library did so or
    /// failed to.
    LoggedOut(bool),
    /// The user asked to see the token.
    ShowToken,
    /// The token arrived, as a string or as something else, or could not
    /// be had.
    TokenFetched(Option<Option<String>>),
    /// The user asked to call the API.
    CallApi,
    /// The API answered, or the call failed.
    ApiFetched(Option<String>),
}

/// What the caller is to do.
pub enum Command {
    /// Nothing.
    Nothing,
    /// Start the provider's library.
    InitAuth { domain: String, client_id: String },
    /// Take the named query keys out of the page address, and replace the
    /// address in the browser's history where `replace` is set.
    CleanAddress { remove_code: bool, remove_state: bool, replace: bool },
    /// Send the user to the provider to sign up.
    RedirectToSignUp,
    /// Send the user to the provider to log in.
    RedirectToLogIn,
    /// Ask the provider's library for the token.
    GetToken,
    /// Ask for the token and call the API with it.
    CallApi,
}

/// The session that `event` makes of `session`.
pub open spec fn session_after(session: Session, event: ClientEvent) -> Session {
    match event {
        ClientEvent::AuthConfigFetched(Some(config)) => Session {
            auth_config: Some(config),
            ..session
        },
        ClientEvent::AuthInitialized { report: Some(SignIn::Somebody(user)), .. } => Session {
            user: Some(user),
            ..session
        },
        ClientEvent::LoggedOut(true) => Session { user: None, ..session },
        ClientEvent::TokenFetched(Some(token)) => Session { token, ..session },
        ClientEvent::ApiFetched(Some(response)) => Session {
            api_response: Some(response),
            ..session
        },
        _ => session,
    }
}

/// The command that answers `event`.
pub open spec fn command_for(event: ClientEvent) -> Command {
    match event {
        ClientEvent::AuthConfigFetched(Some(config)) => Command::InitAuth {
            domain: config.domain,
            client_id: config.client_id,
        },
        ClientEvent::AuthInitialized { report: Some(_), has_code, has_state } => {
            Command::CleanAddress {
                remove_code: has_code,
                remove_state: has_code && has_state,
                replace: has_code && has_state,
            }
        },
        ClientEvent::SignUp => Command::RedirectToSignUp,
        ClientEvent::LogIn => Command::RedirectToLogIn,
        ClientEvent::ShowToken => Command::GetToken,
        ClientEvent::CallApi => Command::CallApi,
        _ => Command::Nothing,
    }
}

impl Session {
    /// The session of a client that has just started: it holds nothing.
    pub fn new() -> (session: Session)
        ensures
            session.user is None,
            session.auth_config is None,
            session.token is None,
            session.api_response is None,
    {
        Session { user: None, auth_config: None, token: None, api_response: None }
    }

    /// Takes in `event`, and says what to do about it. A failure changes
    /// nothing and asks for nothing.
    pub fn update(&mut self, event: ClientEvent) -> (command: Command)
        ensures
            *final(self) == session_after(*old(self), event),
            command == command_for(event),
    {
        match event {
            ClientEvent::AuthConfigFetched(Some(config)) => {
                let domain = config.domain.clone();
                let client_id = config.client_id.clone();
                self.auth_config = Some(config);
                Command::InitAuth { domain, client_id }
            },
            ClientEvent::AuthInitialized { report: Some(report), has_code, has_state } => {
                match report {
                    SignIn::Somebody(user) => {
                        self.user = Some(user);
                    },
                    _ => {},
                }
                Command::CleanAddress {
                    remove_code: has_code,
                    remove_state: has_code && has_state,
                    replace: has_code && has_state,
                }
            },
            ClientEvent::SignUp => Command::RedirectToSignUp,
            ClientEvent::LogIn => Command::RedirectToLogIn,
            ClientEvent::LoggedOut(true) => {
                self.user = None;
                Command::Nothing
            },
            ClientEvent::ShowToken => Command::GetToken,
            ClientEvent::TokenFetched(Some(token)) => {
                self.token = token;
                Command::Nothing
            },
            ClientEvent::CallApi => Command::CallApi,
            ClientEvent::ApiFetched(Some(response)) => {
                self.api_response = Some(response);
                Command::Nothing
            },
            _ => Command::Nothing,
        }
    }
}

/// The `Authorization` header with which the client calls the API: the
/// token as a bearer token, or an empty one where it has none.
pub fn api_authorization(token: Option<&str>) -> (header: String)
    ensures
        header@ == "Bearer "@ + match token {
            Some(t) => t@,
            None => Seq::<char>::empty(),
        },
{
    match token {
        Some(t) => bearer_header(t),
        None => {
            let header = bearer_header("");
            proof {
                reveal_strlit("");
            }
            assert(""@ == Seq::<char>::empty());
            header
        },
    }
}

} // verus!
