//! The messages exchanged with the greetd daemon, as plain values.
//!
//! Each request and reply of the daemon's protocol has a counterpart here;
//! the code that owns the socket converts them to and from the wire format.

use vstd::prelude::*;

verus! {

/// The two kinds of error that the daemon reports.
#[derive(Clone, Copy, Debug, PartialEq, Eq, Structural)]
pub enum ErrorType {
    /// A generic error.
    Error,
    /// An authentication error: the credentials were refused.
    AuthError,
}

/// What kind of answer a prompt of the daemon asks for.
#[derive(Clone, Copy, Debug, PartialEq, Eq, Structural)]
pub enum AuthMessageType {
    /// An answer that may be echoed, such as a user name.
    Visible,
    /// An answer that must be masked, such as a password.
    Secret,
    /// A notice that is acknowledged with an empty answer.
    Info,
    /// An error notice that is acknowledged with an empty answer.
    Error,
}

/// A request from the greeter to the daemon.
#[derive(Debug)]
pub enum Request {
    /// Open a session for a user.
    CreateSession { username: String },
    /// Answer the daemon's last prompt.
    PostAuthMessageResponse { response: Option<String> },
    /// Start the authenticated session with a command line and environment.
    StartSession { cmd: Vec<String>, env: Vec<String> },
    /// Abandon the session.
    CancelSession,
}

/// A reply from the daemon.
#[derive(Debug)]
pub enum Response {
    /// The request succeeded.
    Success,
    /// The request failed.
    Error { error_type: ErrorType, description: String },
    /// The daemon asks for an answer or shows a notice.
    AuthMessage { auth_message_type: AuthMessageType, auth_message: String },
}

/// The mathematical value of a request: its strings as character sequences.
pub enum RequestView {
    CreateSession { username: Seq<char> },
    PostAuthMessageResponse { response: Option<Seq<char>> },
    StartSession { cmd: Seq<Seq<char>>, env: Seq<Seq<char>> },
    CancelSession,
}

/// The character sequences of a list of strings.
pub open spec fn words_view(v: Vec<String>) -> Seq<Seq<char>> {
    v@.map_values(|s: String| s@)
}

/// The character sequence of an optional string.
pub open spec fn opt_view(o: Option<String>) -> Option<Seq<char>> {
    match o {
        Some(s) => Some(s@),
        None => None,
    }
}

impl View for Request {
    type V = RequestView;

    open spec fn view(&self) -> RequestView {
        match self {
            Request::CreateSession { username } => RequestView::CreateSession { username: username@ },
            Request::PostAuthMessageResponse { response } => RequestView::PostAuthMessageResponse {
                response: opt_view(*response),
            },
            Request::StartSession { cmd, env } => RequestView::StartSession {
                cmd: words_view(*cmd),
                env: words_view(*env),
            },
            Request::CancelSession => RequestView::CancelSession,
        }
    }
}

} // verus!
