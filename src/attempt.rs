//! One authentication attempt, from locating the daemon to starting the
//! session, as a state machine.
//!
//! The attempt decides; its driver does the work. Each call of
//! [`Attempt::step`] takes what the driver observed (the endpoint's address,
//! a connection, a reply) and says what to do next: connect, send a request,
//! or report the outcome. The driver owns the socket and never sends a second
//! request before it has handed back the reply to the first.

use vstd::prelude::*;
use crate::protocol::{Request, RequestView, Response, words_view};
use crate::greetd::{
    AuthError, AuthErrorView, AuthStateView, auth_response_reply, auth_response_result,
    create_session_reply, create_session_result, start_session_reply, start_session_result,
    unit_result_view, AuthState,
};

verus! {

/// The words of a command line under the shell's quoting rules, or `None`
/// where a quote is left open.
pub uninterp spec fn shell_split(s: Seq<char>) -> Option<Seq<Seq<char>>>;

/// Relies on `shell_words::split`: it splits a command line into words as a
/// Unix shell would, with quote removal as the only expansion, and fails
/// only where a quote is left open; its result depends on the text alone.
#[verifier::external_body]
fn split_words(s: &str) -> (r: Option<Vec<String>>)
    ensures
        match r {
            Some(v) => shell_split(s@) == Some(words_view(v)),
            None => shell_split(s@) is None,
        },
{
    shell_words::split(s).ok()
}

/// The argument vector for a session command line, given how it split: its
/// words, or the whole line as one word where it could not be split.
pub open spec fn argv_of(session_cmd: Seq<char>, split: Option<Seq<Seq<char>>>) -> Seq<Seq<char>> {
    match split {
        Some(words) => words,
        None => seq![session_cmd],
    }
}

/// The argument vector that starts the session for a command line.
pub open spec fn session_words(session_cmd: Seq<char>) -> Seq<Seq<char>> {
    argv_of(session_cmd, shell_split(session_cmd))
}

/// Settles the argument vector from the outcome of splitting `session_cmd`:
/// the words where it split, else the whole line as a single word.
pub fn command_words(session_cmd: &str, split: Option<Vec<String>>) -> (r: Vec<String>)
    ensures
        words_view(r) == argv_of(session_cmd@, match split {
            Some(v) => Some(words_view(v)),
            None => None,
        }),
{
    match split {
        Some(v) => v,
        None => {
            let mut v: Vec<String> = Vec::new();
            v.push(String::from_str(session_cmd));
            assert(words_view(v) =~= seq![session_cmd@]);
            v
        },
    }
}

/// Splits a session command line into the argument vector that starts it.
pub fn session_argv(session_cmd: &str) -> (r: Vec<String>)
    ensures
        words_view(r) == session_words(session_cmd@),
        shell_split(session_cmd@) is None ==> words_view(r) == seq![session_cmd@],
{
    let split = split_words(session_cmd);
    command_words(session_cmd, split)
}


/// How far an attempt has come.
#[derive(Clone, Copy, Debug, PartialEq, Eq, Structural)]
pub enum Stage {
    /// Waiting for the endpoint's address.
    Locating,
    /// Waiting for the connection to open.
    Connecting,
    /// `CreateSession` sent, waiting for its reply.
    CreatingSession,
    /// The password sent, waiting for the reply.
    Authenticating,
    /// `StartSession` sent, waiting for its reply.
    StartingSession,
    /// The outcome has been reported.
    Finished,
}

/// What the driver of an attempt observed.
#[derive(Debug)]
pub enum Event {
    /// The endpoint's address, or `None` where none is configured.
    Endpoint(Option<String>),
    /// The connection to the endpoint is open.
    Connected,
    /// The connection could not be opened, for the reason given.
    ConnectFailed(String),
    /// The daemon's reply to the last request.
    Received(Response),
    /// Sending a request or reading its reply failed, for the reason given.
    TransportFailed(String),
}

/// What the driver of an attempt is to do next.
#[derive(Debug)]
pub enum Action {
    /// Open a connection to this address.
    Connect(String),
    /// Send this request and hand back the reply.
    Send(Request),
    /// The attempt is over with this outcome; close the connection.
    Finish(Result<(), AuthError>),
}

/// The mathematical value of an [`Action`].
pub enum ActionView {
    Connect(Seq<char>),
    Send(RequestView),
    Finish(Result<(), AuthErrorView>),
}

impl View for Action {
    type V = ActionView;

    open spec fn view(&self) -> ActionView {
        match self {
            Action::Connect(a) => ActionView::Connect(a@),
            Action::Send(r) => ActionView::Send(r@),
            Action::Finish(r) => ActionView::Finish(unit_result_view(*r)),
        }
    }
}

/// One authentication attempt: the credentials, the session command line
/// and how far the exchange has come.
pub struct Attempt {
    stage: Stage,
    username: String,
    password: String,
    session_cmd: String,
}

/// The mathematical value of an [`Attempt`].
pub struct AttemptView {
    pub stage: Stage,
    pub username: Seq<char>,
    pub password: Seq<char>,
    pub session_cmd: Seq<char>,
}

impl View for Attempt {
    type V = AttemptView;

    closed spec fn view(&self) -> AttemptView {
        AttemptView {
            stage: self.stage,
            username: self.username@,
            password: self.password@,
            session_cmd: self.session_cmd@,
        }
    }
}

/// The reason reported where no endpoint address is configured.
pub open spec fn no_endpoint_text() -> Seq<char> {
    "GREETD_SOCK not set"@
}

/// The reason reported where the password was answered with a prompt or a
/// notice other than an error: only a single secret prompt is supported.
pub open spec fn unexpected_state_text() -> Seq<char> {
    "unexpected auth state"@
}

/// The reason reported for an event that the attempt's stage does not await.
pub open spec fn unexpected_event_text() -> Seq<char> {
    "unexpected event"@
}

/// A fresh attempt: nothing done yet, the endpoint still to be located.
pub open spec fn initial(username: Seq<char>, password: Seq<char>, session_cmd: Seq<char>) -> AttemptView {
    AttemptView { stage: Stage::Locating, username, password, session_cmd }
}

/// The same attempt at another stage.
pub open spec fn at(a: AttemptView, stage: Stage) -> AttemptView {
    AttemptView { stage, ..a }
}

/// The attempt ends with a failure.
pub open spec fn fail(a: AttemptView, e: AuthErrorView) -> (AttemptView, ActionView) {
    (at(a, Stage::Finished), ActionView::Finish(Err(e)))
}

/// The attempt sends a request and waits at `stage` for the reply.
pub open spec fn send(a: AttemptView, stage: Stage, r: RequestView) -> (AttemptView, ActionView) {
    (at(a, stage), ActionView::Send(r))
}

/// What an attempt does on an event: its next state and the action.
pub open spec fn step_spec(a: AttemptView, event: Event) -> (AttemptView, ActionView) {
    match (a.stage, event) {
        (Stage::Locating, Event::Endpoint(None)) => fail(a, AuthErrorView::ConnectionFailed(no_endpoint_text())),
        (Stage::Locating, Event::Endpoint(Some(address))) => (at(a, Stage::Connecting), ActionView::Connect(address@)),
        (Stage::Connecting, Event::Connected) => send(
            a,
            Stage::CreatingSession,
            RequestView::CreateSession { username: a.username },
        ),
        (Stage::Connecting, Event::ConnectFailed(reason)) => fail(a, AuthErrorView::ConnectionFailed(reason@)),
        (Stage::CreatingSession, Event::Received(response)) => match create_session_result(response) {
            Ok(()) => send(
                a,
                Stage::Authenticating,
                RequestView::PostAuthMessageResponse { response: Some(a.password) },
            ),
            Err(e) => fail(a, e),
        },
        (Stage::Authenticating, Event::Received(response)) => match auth_response_result(response) {
            Ok(AuthStateView::Done) => send(
                a,
                Stage::StartingSession,
                RequestView::StartSession { cmd: session_words(a.session_cmd), env: Seq::empty() },
            ),
            Ok(AuthStateView::Error(m)) => fail(a, AuthErrorView::AuthFailed(m)),
            Ok(_) => fail(a, AuthErrorView::ProtocolError(unexpected_state_text())),
            Err(e) => fail(a, e),
        },
        (Stage::StartingSession, Event::Received(response)) => (
            at(a, Stage::Finished),
            ActionView::Finish(start_session_result(response)),
        ),
        (Stage::CreatingSession, Event::TransportFailed(reason)) => fail(a, AuthErrorView::ProtocolError(reason@)),
        (Stage::Authenticating, Event::TransportFailed(reason)) => fail(a, AuthErrorView::ProtocolError(reason@)),
        (Stage::StartingSession, Event::TransportFailed(reason)) => fail(a, AuthErrorView::ProtocolError(reason@)),
        _ => fail(a, AuthErrorView::ProtocolError(unexpected_event_text())),
    }
}

/// Attempts carry nothing from one to the next. An attempt that has ended
/// neither connects nor sends again, so a retry is a new attempt (built by
/// [`Attempt::new`] from its arguments alone), and on a configured endpoint
/// the first action of a new attempt opens a connection of its own.
pub proof fn lemma_attempts_independent(
    username: Seq<char>,
    password: Seq<char>,
    session_cmd: Seq<char>,
    address: String,
    ended: AttemptView,
    event: Event,
)
    ensures
        ended.stage == Stage::Finished ==> step_spec(ended, event).1 is Finish,
        step_spec(initial(username, password, session_cmd), Event::Endpoint(Some(address))) == (
            at(initial(username, password, session_cmd), Stage::Connecting),
            ActionView::Connect(address@),
        ),
{
}

/// The order of the stages: an attempt only ever moves forward.
pub open spec fn stage_rank(stage: Stage) -> nat {
    match stage {
        Stage::Locating => 0,
        Stage::Connecting => 1,
        Stage::CreatingSession => 2,
        Stage::Authenticating => 3,
        Stage::StartingSession => 4,
        Stage::Finished => 5,
    }
}

/// The exchange keeps its order. No step moves an attempt back, an attempt
/// reaches the password stage only from an accepted `CreateSession`, and
/// `StartSession` is sent only when the daemon answered the password with
/// success.
pub proof fn lemma_exchange_in_order(a: AttemptView, event: Event)
    ensures
        stage_rank(step_spec(a, event).0.stage) >= stage_rank(a.stage),
        step_spec(a, event).0.stage == Stage::Authenticating && a.stage != Stage::Authenticating
            ==> a.stage == Stage::CreatingSession,
        step_spec(a, event).1 matches ActionView::Send(RequestView::StartSession { .. })
            ==> a.stage == Stage::Authenticating && event matches Event::Received(Response::Success),
{
}

impl Attempt {
    /// Begins an attempt for a user, with the password to answer the
    /// daemon's prompt and the command line of the session to start.
    pub fn new(username: &str, password: &str, session_cmd: &str) -> (r: Attempt)
        ensures
            r@ == initial(username@, password@, session_cmd@),
    {
        Attempt {
            stage: Stage::Locating,
            username: String::from_str(username),
            password: String::from_str(password),
            session_cmd: String::from_str(session_cmd),
        }
    }

    /// How far the attempt has come.
    pub fn stage(&self) -> (r: Stage)
        ensures
            r == self@.stage,
    {
        self.stage
    }

    fn finish(&mut self, e: AuthError) -> (r: Action)
        ensures
            final(self)@ == at(old(self)@, Stage::Finished),
            r@ == ActionView::Finish(Err(e@)),
    {
        self.stage = Stage::Finished;
        Action::Finish(Err(e))
    }

    /// Takes what the driver observed and says what it is to do next.
    pub fn step(&mut self, event: Event) -> (r: Action)
        ensures
            (final(self)@, r@) == step_spec(old(self)@, event),
    {
        match (self.stage, event) {
            (Stage::Locating, Event::Endpoint(None)) => {
                self.finish(AuthError::ConnectionFailed(String::from_str("GREETD_SOCK not set")))
            },
            (Stage::Locating, Event::Endpoint(Some(address))) => {
                self.stage = Stage::Connecting;
                Action::Connect(address)
            },
            (Stage::Connecting, Event::Connected) => {
                self.stage = Stage::CreatingSession;
                Action::Send(Request::CreateSession { username: self.username.clone() })
            },
            (Stage::Connecting, Event::ConnectFailed(reason)) => {
                self.finish(AuthError::ConnectionFailed(reason))
            },
            (Stage::CreatingSession, Event::Received(response)) => {
                match create_session_reply(response) {
                    Ok(()) => {
                        self.stage = Stage::Authenticating;
                        Action::Send(
                            Request::PostAuthMessageResponse { response: Some(self.password.clone()) },
                        )
                    },
                    Err(e) => self.finish(e),
                }
            },
            (Stage::Authenticating, Event::Received(response)) => {
                match auth_response_reply(response) {
                    Ok(AuthState::Done) => {
                        self.stage = Stage::StartingSession;
                        let cmd = session_argv(self.session_cmd.as_str());
                        let env: Vec<String> = Vec::new();
                        assert(words_view(env) =~= Seq::<Seq<char>>::empty());
                        Action::Send(Request::StartSession { cmd, env })
                    },
                    Ok(AuthState::Error(m)) => self.finish(AuthError::AuthFailed(m)),
                    Ok(_) => self.finish(
                        AuthError::ProtocolError(String::from_str("unexpected auth state")),
                    ),
                    Err(e) => self.finish(e),
                }
            },
            (Stage::StartingSession, Event::Received(response)) => {
                self.stage = Stage::Finished;
                Action::Finish(start_session_reply(response))
            },
            (Stage::CreatingSession, Event::TransportFailed(reason))
            | (Stage::Authenticating, Event::TransportFailed(reason))
            | (Stage::StartingSession, Event::TransportFailed(reason)) => {
                self.finish(AuthError::ProtocolError(reason))
            },
            _ => self.finish(AuthError::ProtocolError(String::from_str("unexpected event"))),
        }
    }
}

} // verus!
