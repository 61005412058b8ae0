//! The authentication exchange with the greetd daemon.

use vstd::prelude::*;
use crate::protocol::{AuthMessageType, ErrorType, Request, RequestView, Response, words_view};

verus! {

/// The message shown when the daemon refuses credentials without saying why.
pub open spec fn auth_failed_text() -> Seq<char> {
    "Authentication failed"@
}

/// The user-facing text of an error that the daemon reported.
///
/// An authentication error with an empty description reads as
/// "Authentication failed"; every other description is shown as it is.
pub open spec fn error_message(error_type: ErrorType, description: Seq<char>) -> Seq<char> {
    if error_type == ErrorType::AuthError && description.len() == 0 {
        auth_failed_text()
    } else {
        description
    }
}

/// Why an authentication attempt failed.
#[derive(Debug)]
pub enum AuthError {
    /// The daemon's endpoint is not configured or cannot be reached.
    ConnectionFailed(String),
    /// The daemon sent something that the exchange does not allow.
    ProtocolError(String),
    /// The daemon refused the credentials or reported an error.
    AuthFailed(String),
}

/// The mathematical value of an [`AuthError`].
pub enum AuthErrorView {
    ConnectionFailed(Seq<char>),
    ProtocolError(Seq<char>),
    AuthFailed(Seq<char>),
}

impl View for AuthError {
    type V = AuthErrorView;

    open spec fn view(&self) -> AuthErrorView {
        match self {
            AuthError::ConnectionFailed(m) => AuthErrorView::ConnectionFailed(m@),
            AuthError::ProtocolError(m) => AuthErrorView::ProtocolError(m@),
            AuthError::AuthFailed(m) => AuthErrorView::AuthFailed(m@),
        }
    }
}

/// The text that shows an [`AuthError`] to the user: the two failures of the
/// exchange itself carry a prefix, a refusal by the daemon is shown as it is.
pub open spec fn error_text(e: AuthErrorView) -> Seq<char> {
    match e {
        AuthErrorView::ConnectionFailed(m) => "Connection failed: "@ + m,
        AuthErrorView::ProtocolError(m) => "Protocol error: "@ + m,
        AuthErrorView::AuthFailed(m) => m,
    }
}

impl AuthError {
    /// The text that shows this error to the user.
    pub fn message(&self) -> (r: String)
        ensures
            r@ == error_text(self@),
    {
        match self {
            AuthError::ConnectionFailed(m) => String::from_str("Connection failed: ").concat(m.as_str()),
            AuthError::ProtocolError(m) => String::from_str("Protocol error: ").concat(m.as_str()),
            AuthError::AuthFailed(m) => m.clone(),
        }
    }
}

/// Turns an error reported by the daemon into the text shown to the user.
pub fn format_error(error_type: ErrorType, description: &str) -> (r: String)
    ensures
        r@ == error_message(error_type, description@),
{
    match error_type {
        ErrorType::AuthError => {
            if description.is_empty() {
                String::from_str("Authentication failed")
            } else {
                String::from_str(description)
            }
        },
        ErrorType::Error => String::from_str(description),
    }
}


/// The outcome of an exchange that yields nothing on success.
pub open spec fn unit_result_view(r: Result<(), AuthError>) -> Result<(), AuthErrorView> {
    match r {
        Ok(()) => Ok(()),
        Err(e) => Err(e@),
    }
}

/// The failure that a daemon error reply stands for.
pub open spec fn reply_failure(error_type: ErrorType, description: Seq<char>) -> AuthErrorView {
    AuthErrorView::AuthFailed(error_message(error_type, description))
}

/// Where the conversation with the daemon stands after a reply to an answer.
#[derive(Debug)]
pub enum AuthState {
    /// The daemon asks for a visible answer.
    NeedInput(String),
    /// The daemon asks for a masked answer.
    NeedSecret(String),
    /// The daemon shows a notice.
    Info(String),
    /// The daemon shows an error notice.
    Error(String),
    /// Authentication is complete: the session can be started.
    Done,
}

/// The mathematical value of an [`AuthState`].
pub enum AuthStateView {
    NeedInput(Seq<char>),
    NeedSecret(Seq<char>),
    Info(Seq<char>),
    Error(Seq<char>),
    Done,
}

impl View for AuthState {
    type V = AuthStateView;

    open spec fn view(&self) -> AuthStateView {
        match self {
            AuthState::NeedInput(m) => AuthStateView::NeedInput(m@),
            AuthState::NeedSecret(m) => AuthStateView::NeedSecret(m@),
            AuthState::Info(m) => AuthStateView::Info(m@),
            AuthState::Error(m) => AuthStateView::Error(m@),
            AuthState::Done => AuthStateView::Done,
        }
    }
}

/// The outcome of an exchange that yields an [`AuthState`].
pub open spec fn state_result_view(r: Result<AuthState, AuthError>) -> Result<AuthStateView, AuthErrorView> {
    match r {
        Ok(s) => Ok(s@),
        Err(e) => Err(e@),
    }
}

/// What a reply to `CreateSession` means: success and a prompt both let the
/// exchange go on, an error ends it.
pub open spec fn create_session_result(response: Response) -> Result<(), AuthErrorView> {
    match response {
        Response::Success => Ok(()),
        Response::AuthMessage { .. } => Ok(()),
        Response::Error { error_type, description } => Err(reply_failure(error_type, description@)),
    }
}

/// What a reply to `PostAuthMessageResponse` means.
pub open spec fn auth_response_result(response: Response) -> Result<AuthStateView, AuthErrorView> {
    match response {
        Response::Success => Ok(AuthStateView::Done),
        Response::AuthMessage { auth_message_type, auth_message } => Ok(
            match auth_message_type {
                AuthMessageType::Visible => AuthStateView::NeedInput(auth_message@),
                AuthMessageType::Secret => AuthStateView::NeedSecret(auth_message@),
                AuthMessageType::Info => AuthStateView::Info(auth_message@),
                AuthMessageType::Error => AuthStateView::Error(auth_message@),
            },
        ),
        Response::Error { error_type, description } => Err(reply_failure(error_type, description@)),
    }
}

/// The text of the protocol error for any reply to `StartSession` but
/// success or an error.
pub open spec fn unexpected_response_text() -> Seq<char> {
    "unexpected response"@
}

/// What a reply to `StartSession` means: only success starts the session.
pub open spec fn start_session_result(response: Response) -> Result<(), AuthErrorView> {
    match response {
        Response::Success => Ok(()),
        Response::Error { error_type, description } => Err(reply_failure(error_type, description@)),
        Response::AuthMessage { .. } => Err(AuthErrorView::ProtocolError(unexpected_response_text())),
    }
}

/// Interprets the daemon's reply to `CreateSession`.
pub fn create_session_reply(response: Response) -> (r: Result<(), AuthError>)
    ensures
        unit_result_view(r) == create_session_result(response),
{
    match response {
        Response::Success => Ok(()),
        Response::AuthMessage { .. } => Ok(()),
        Response::Error { error_type, description } => Err(
            AuthError::AuthFailed(format_error(error_type, description.as_str())),
        ),
    }
}

/// Interprets the daemon's reply to `PostAuthMessageResponse`.
pub fn auth_response_reply(response: Response) -> (r: Result<AuthState, AuthError>)
    ensures
        state_result_view(r) == auth_response_result(response),
{
    match response {
        Response::Success => Ok(AuthState::Done),
        Response::AuthMessage { auth_message_type, auth_message } => match auth_message_type {
            AuthMessageType::Visible => Ok(AuthState::NeedInput(auth_message)),
            AuthMessageType::Secret => Ok(AuthState::NeedSecret(auth_message)),
            AuthMessageType::Info => Ok(AuthState::Info(auth_message)),
            AuthMessageType::Error => Ok(AuthState::Error(auth_message)),
        },
        Response::Error { error_type, description } => Err(
            AuthError::AuthFailed(format_error(error_type, description.as_str())),
        ),
    }
}

/// Interprets the daemon's reply to `StartSession`.
pub fn start_session_reply(response: Response) -> (r: Result<(), AuthError>)
    ensures
        unit_result_view(r) == start_session_result(response),
{
    match response {
        Response::Success => Ok(()),
        Response::Error { error_type, description } => Err(
            AuthError::AuthFailed(format_error(error_type, description.as_str())),
        ),
        Response::AuthMessage { .. } => Err(
            AuthError::ProtocolError(String::from_str("unexpected response")),
        ),
    }
}

/// Interprets the daemon's reply to `CancelSession`. Cancelling is a
/// best-effort teardown, so whatever the daemon replies, an error included,
/// the outcome is success.
pub fn cancel_session_reply(response: Response) -> (r: Result<(), AuthError>)
    ensures
        r is Ok,
{
    match response {
        _ => Ok(()),
    }
}

} // verus!
