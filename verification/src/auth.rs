//! The handshake that decides whether a session carries a token, and which.
//!
//! The receiver is asked whether it wants authentication. Where it does, the
//! password is traded for a token of 16 bytes, which the receiver hands out as
//! 32 hexadecimal digits. Any failure on the way ends the handshake: nothing
//! is tried twice.
//!
//! The HTTP exchanges themselves are the caller's business. [`authenticate`]
//! is the transition function of the handshake: it is told what has happened
//! and answers what is to be done next.

use vstd::prelude::*;
use vstd::string::*;
use crate::token::{decode_token, is_token_text, token_bytes, token_of, token_view};

verus! {

/// What the receiver answers when asked whether it wants authentication.
#[derive(Clone, Copy, Debug, PartialEq, Eq)]
pub struct AuthStatus {
    pub required: bool,
}

/// What the receiver answers to a login.
#[derive(Debug, PartialEq, Eq)]
pub struct LoginResponse {
    pub token: String,
}

/// Why an exchange with the receiver gave no answer.
#[derive(Clone, Copy, Debug, PartialEq, Eq)]
pub enum ReplyError {
    /// The request failed: the receiver was not reached, or refused.
    Unreachable,
    /// An answer came, but not one of the expected form.
    Malformed,
}

/// Why a handshake failed. Each of these ends it for good.
#[derive(Clone, Copy, Debug, PartialEq, Eq)]
pub enum AuthError {
    /// The status request failed.
    StatusUnreachable,
    /// The answer to the status request was not understood.
    MalformedStatus,
    /// The receiver wants authentication and no password was given.
    MissingPassword,
    /// The login request failed.
    LoginFailed,
    /// The answer to the login was not understood.
    MalformedLogin,
    /// The token in the answer to the login is not 32 hexadecimal digits.
    BadToken,
    /// Something was reported that the handshake was not waiting for.
    UnexpectedEvent,
}

/// How far a handshake has come.
#[derive(Clone, Copy, Debug, PartialEq, Eq)]
pub enum AuthState {
    /// Nothing has been asked yet.
    Start,
    /// The status request is on its way.
    AwaitingStatus,
    /// The login is on its way.
    AwaitingLogin,
    /// The handshake is over, with a session or with a failure.
    Finished,
}

/// What has happened since the last step.
#[derive(Debug, PartialEq, Eq)]
pub enum AuthEvent {
    /// The handshake is to begin.
    Begin,
    /// The status request has ended.
    Status(Result<AuthStatus, ReplyError>),
    /// The login has ended.
    Login(Result<LoginResponse, ReplyError>),
}

/// What is to be done next.
#[derive(Debug, PartialEq, Eq)]
pub enum AuthAction {
    /// Send a GET request to `url` and report the answer as [`AuthEvent::Status`].
    GetStatus { url: String },
    /// Send a POST request to `url` with the password in a JSON object, under
    /// the key `password`, and report the answer as [`AuthEvent::Login`].
    PostLogin { url: String, password: String },
    /// The handshake is done: the session carries this token, or none.
    Done(Option<[u8; 16]>),
    /// The handshake has failed.
    Failed(AuthError),
}

/// An [`AuthAction`] with its strings and its token as sequences.
pub enum AuthActionView {
    GetStatus { url: Seq<char> },
    PostLogin { url: Seq<char>, password: Seq<char> },
    Done(Option<Seq<u8>>),
    Failed(AuthError),
}

impl View for AuthAction {
    type V = AuthActionView;

    open spec fn view(&self) -> AuthActionView {
        match *self {
            AuthAction::GetStatus { url } => AuthActionView::GetStatus { url: url@ },
            AuthAction::PostLogin { url, password } => AuthActionView::PostLogin {
                url: url@,
                password: password@,
            },
            AuthAction::Done(token) => AuthActionView::Done(token_view(token)),
            AuthAction::Failed(error) => AuthActionView::Failed(error),
        }
    }
}

/// The characters of a password, where one was given.
pub open spec fn password_view(password: Option<&str>) -> Option<Seq<char>> {
    match password {
        Some(text) => Some(text@),
        None => None,
    }
}

/// The address of the status endpoint on a host.
pub open spec fn status_url(host: Seq<char>) -> Seq<char> {
    "http://"@ + host + "/api/auth/status"@
}

/// The address of the login endpoint on a host.
pub open spec fn login_url(host: Seq<char>) -> Seq<char> {
    "http://"@ + host + "/api/login"@
}

/// What follows the answer to the status request.
pub open spec fn after_status(
    host: Seq<char>,
    password: Option<Seq<char>>,
    reply: Result<AuthStatus, ReplyError>,
) -> (AuthState, AuthActionView) {
    match reply {
        Err(ReplyError::Unreachable) => (
            AuthState::Finished,
            AuthActionView::Failed(AuthError::StatusUnreachable),
        ),
        Err(ReplyError::Malformed) => (
            AuthState::Finished,
            AuthActionView::Failed(AuthError::MalformedStatus),
        ),
        Ok(status) => if !status.required {
            (AuthState::Finished, AuthActionView::Done(None))
        } else {
            match password {
                None => (AuthState::Finished, AuthActionView::Failed(AuthError::MissingPassword)),
                Some(text) => (
                    AuthState::AwaitingLogin,
                    AuthActionView::PostLogin { url: login_url(host), password: text },
                ),
            }
        },
    }
}

/// What follows the answer to the login.
pub open spec fn after_login(reply: Result<LoginResponse, ReplyError>) -> AuthActionView {
    match reply {
        Err(ReplyError::Unreachable) => AuthActionView::Failed(AuthError::LoginFailed),
        Err(ReplyError::Malformed) => AuthActionView::Failed(AuthError::MalformedLogin),
        Ok(login) => match token_of(login.token@) {
            Some(token) => AuthActionView::Done(Some(token)),
            None => AuthActionView::Failed(AuthError::BadToken),
        },
    }
}

/// The handshake as a transition function: the state that follows, and what
/// is to be done, for each state and each thing that can be reported in it.
pub open spec fn auth_step(
    host: Seq<char>,
    password: Option<Seq<char>>,
    state: AuthState,
    event: AuthEvent,
) -> (AuthState, AuthActionView) {
    match (state, event) {
        (AuthState::Start, AuthEvent::Begin) => (
            AuthState::AwaitingStatus,
            AuthActionView::GetStatus { url: status_url(host) },
        ),
        (AuthState::AwaitingStatus, AuthEvent::Status(reply)) => after_status(
            host,
            password,
            reply,
        ),
        (AuthState::AwaitingLogin, AuthEvent::Login(reply)) => (
            AuthState::Finished,
            after_login(reply),
        ),
        _ => (AuthState::Finished, AuthActionView::Failed(AuthError::UnexpectedEvent)),
    }
}

/// The address of an endpoint: the scheme, the host, and the path.
fn endpoint(host: &str, path: &str) -> (url: String)
    ensures
        url@ == "http://"@ + host@ + path@,
{
    let mut url = String::from_str("http://");
    url.append(host);
    url.append(path);
    url
}

/// Takes the handshake one step further.
///
/// `state` is where the handshake stands and `event` what has happened since.
/// The result is the state that follows and what the caller is to do next. A
/// handshake starts in [`AuthState::Start`] with [`AuthEvent::Begin`]; after
/// each request that an action asks for, the caller reports the outcome, until
/// the action is [`AuthAction::Done`] or [`AuthAction::Failed`].
///
/// The receiver is first asked for its status. Where it wants no
/// authentication the handshake is done, without a token and without a login.
/// Where it wants one, the password is sent, and the token that comes back is
/// read. A request that fails, an answer that is not understood, a missing
/// password and a token that is not 32 hexadecimal digits each end the
/// handshake with their error, and so does an event that the state does not
/// wait for.
pub fn authenticate(
    host: &str,
    password: Option<&str>,
    state: AuthState,
    event: AuthEvent,
) -> (next: (AuthState, AuthAction))
    ensures
        next.0 == auth_step(host@, password_view(password), state, event).0,
        next.1@ == auth_step(host@, password_view(password), state, event).1,
{
    match state {
        AuthState::Start => match event {
            AuthEvent::Begin => (
                AuthState::AwaitingStatus,
                AuthAction::GetStatus { url: endpoint(host, "/api/auth/status") },
            ),
            _ => (AuthState::Finished, AuthAction::Failed(AuthError::UnexpectedEvent)),
        },
        AuthState::AwaitingStatus => match event {
            AuthEvent::Status(Ok(status)) => {
                if !status.required {
                    (AuthState::Finished, AuthAction::Done(None))
                } else {
                    match password {
                        Some(text) => (
                            AuthState::AwaitingLogin,
                            AuthAction::PostLogin {
                                url: endpoint(host, "/api/login"),
                                password: String::from_str(text),
                            },
                        ),
                        None => (
                            AuthState::Finished,
                            AuthAction::Failed(AuthError::MissingPassword),
                        ),
                    }
                }
            },
            AuthEvent::Status(Err(ReplyError::Unreachable)) => (
                AuthState::Finished,
                AuthAction::Failed(AuthError::StatusUnreachable),
            ),
            AuthEvent::Status(Err(ReplyError::Malformed)) => (
                AuthState::Finished,
                AuthAction::Failed(AuthError::MalformedStatus),
            ),
            _ => (AuthState::Finished, AuthAction::Failed(AuthError::UnexpectedEvent)),
        },
        AuthState::AwaitingLogin => match event {
            AuthEvent::Login(Ok(login)) => match decode_token(login.token.as_str()) {
                Some(token) => (AuthState::Finished, AuthAction::Done(Some(token))),
                None => (AuthState::Finished, AuthAction::Failed(AuthError::BadToken)),
            },
            AuthEvent::Login(Err(ReplyError::Unreachable)) => (
                AuthState::Finished,
                AuthAction::Failed(AuthError::LoginFailed),
            ),
            AuthEvent::Login(Err(ReplyError::Malformed)) => (
                AuthState::Finished,
                AuthAction::Failed(AuthError::MalformedLogin),
            ),
            _ => (AuthState::Finished, AuthAction::Failed(AuthError::UnexpectedEvent)),
        },
        AuthState::Finished => (
            AuthState::Finished,
            AuthAction::Failed(AuthError::UnexpectedEvent),
        ),
    }
}

/// How far a state is from the start of the handshake.
pub open spec fn progress(state: AuthState) -> int {
    match state {
        AuthState::Start => 0,
        AuthState::AwaitingStatus => 1,
        AuthState::AwaitingLogin => 2,
        AuthState::Finished => 3,
    }
}

/// A handshake only moves forward, so nothing is asked twice. Every step
/// leads to a later state, until the handshake is over and stays so. A
/// request is asked for exactly on entering the state that waits for its
/// answer, and the handshake is over exactly when the action says so.
pub proof fn handshake_moves_forward(
    host: Seq<char>,
    password: Option<Seq<char>>,
    state: AuthState,
    event: AuthEvent,
)
    ensures
        ({
            let (next, action) = auth_step(host, password, state, event);
            &&& state != AuthState::Finished ==> progress(next) > progress(state)
            &&& state == AuthState::Finished ==> next == AuthState::Finished
            &&& action is GetStatus <==> next == AuthState::AwaitingStatus
            &&& action is PostLogin <==> next == AuthState::AwaitingLogin
            &&& action is Done || action is Failed <==> next == AuthState::Finished
        }),
{
}

/// The password leaves in one case only: the receiver has answered the status
/// request, it wants authentication, and a password was given. It then goes to
/// the login endpoint of the host.
pub proof fn login_only_when_required(
    host: Seq<char>,
    password: Option<Seq<char>>,
    state: AuthState,
    event: AuthEvent,
)
    ensures
        auth_step(host, password, state, event).1 is PostLogin <==> {
            &&& state == AuthState::AwaitingStatus
            &&& event matches AuthEvent::Status(Ok(status))
            &&& status.required
            &&& password is Some
        },
        auth_step(host, password, state, event).1 matches AuthActionView::PostLogin {
            url,
            password: sent,
        } ==> url == login_url(host) && password == Some(sent),
{
}

/// A session gets a token in one case only: the receiver has answered the
/// login with 32 hexadecimal digits. The token is the 16 bytes that they
/// stand for.
pub proof fn token_only_from_login(
    host: Seq<char>,
    password: Option<Seq<char>>,
    state: AuthState,
    event: AuthEvent,
)
    ensures
        auth_step(host, password, state, event).1 matches AuthActionView::Done(Some(token)) <==> {
            &&& state == AuthState::AwaitingLogin
            &&& event matches AuthEvent::Login(Ok(login))
            &&& is_token_text(login.token@)
        },
        auth_step(host, password, state, event).1 matches AuthActionView::Done(Some(token)) ==> {
            &&& token.len() == 16
            &&& event matches AuthEvent::Login(Ok(login))
            &&& token == token_bytes(login.token@)
        },
{
}

} // verus!
