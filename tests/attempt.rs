use grxxt::{
    command_words, session_argv, Action, Attempt, AuthError, AuthMessageType, ErrorType, Event,
    Request, Response, Stage,
};

/// Runs an attempt against a scripted daemon: the endpoint is configured,
/// the connection opens, and each request is answered by the next reply.
/// Returns the requests sent and the outcome.
fn run_scripted(
    username: &str,
    password: &str,
    session_cmd: &str,
    replies: Vec<Response>,
) -> (Vec<Request>, Result<(), AuthError>) {
    let mut attempt = Attempt::new(username, password, session_cmd);
    let mut replies = replies.into_iter();
    let mut sent = Vec::new();
    let mut action = attempt.step(Event::Endpoint(Some("/run/greetd.sock".to_string())));
    loop {
        action = match action {
            Action::Connect(address) => {
                assert_eq!(address, "/run/greetd.sock");
                attempt.step(Event::Connected)
            }
            Action::Send(request) => {
                sent.push(request);
                match replies.next() {
                    Some(reply) => attempt.step(Event::Received(reply)),
                    None => attempt.step(Event::TransportFailed("connection closed".to_string())),
                }
            }
            Action::Finish(outcome) => {
                assert_eq!(attempt.stage(), Stage::Finished);
                return (sent, outcome);
            }
        };
    }
}

fn auth_error(description: &str) -> Response {
    Response::Error { error_type: ErrorType::AuthError, description: description.to_string() }
}

#[test]
fn successful_exchange_starts_the_session() {
    let (sent, outcome) = run_scripted(
        "alice",
        "secret",
        "/bin/sh",
        vec![Response::Success, Response::Success, Response::Success],
    );
    assert!(outcome.is_ok());
    assert_eq!(sent.len(), 3);
    assert!(matches!(&sent[0], Request::CreateSession { username } if username == "alice"));
    assert!(matches!(
        &sent[1],
        Request::PostAuthMessageResponse { response: Some(p) } if p == "secret"
    ));
    match &sent[2] {
        Request::StartSession { cmd, env } => {
            assert_eq!(cmd, &vec!["/bin/sh".to_string()]);
            assert!(env.is_empty());
        }
        other => panic!("unexpected request {:?}", other),
    }
}

#[test]
fn empty_auth_error_reads_authentication_failed() {
    let (_, outcome) =
        run_scripted("alice", "wrong", "/bin/sh", vec![Response::Success, auth_error("")]);
    assert!(matches!(outcome, Err(AuthError::AuthFailed(m)) if m == "Authentication failed"));
}

#[test]
fn second_secret_prompt_is_a_protocol_error() {
    let otp = || Response::AuthMessage {
        auth_message_type: AuthMessageType::Secret,
        auth_message: "OTP:".to_string(),
    };
    let (_, outcome) = run_scripted("alice", "secret", "/bin/sh", vec![otp(), otp(), Response::Success]);
    assert!(matches!(outcome, Err(AuthError::ProtocolError(m)) if m == "unexpected auth state"));
}

#[test]
fn missing_endpoint_fails_without_connecting() {
    let mut attempt = Attempt::new("alice", "secret", "/bin/sh");
    let action = attempt.step(Event::Endpoint(None));
    assert!(matches!(
        action,
        Action::Finish(Err(AuthError::ConnectionFailed(m))) if m == "GREETD_SOCK not set"
    ));
    assert_eq!(attempt.stage(), Stage::Finished);
}

#[test]
fn refused_connection_is_a_connection_failure() {
    let mut attempt = Attempt::new("alice", "secret", "/bin/sh");
    let action = attempt.step(Event::Endpoint(Some("/nowhere".to_string())));
    assert!(matches!(action, Action::Connect(a) if a == "/nowhere"));
    let action = attempt.step(Event::ConnectFailed("refused".to_string()));
    assert!(matches!(action, Action::Finish(Err(AuthError::ConnectionFailed(m))) if m == "refused"));
}

#[test]
fn repeated_failures_are_independent() {
    let script = || vec![Response::Success, auth_error("bad password")];
    let (sent_first, first) = run_scripted("alice", "wrong", "/bin/sh", script());
    let (sent_second, second) = run_scripted("alice", "wrong", "/bin/sh", script());
    assert!(matches!(&first, Err(AuthError::AuthFailed(m)) if m == "bad password"));
    assert!(matches!(&second, Err(AuthError::AuthFailed(m)) if m == "bad password"));
    assert_eq!(sent_first.len(), 2);
    assert_eq!(sent_second.len(), 2);
    assert!(matches!(&sent_second[0], Request::CreateSession { username } if username == "alice"));
}

#[test]
fn create_session_error_ends_the_attempt() {
    let reply = Response::Error { error_type: ErrorType::Error, description: "no such user".to_string() };
    let (sent, outcome) = run_scripted("bob", "x", "/bin/sh", vec![reply]);
    assert_eq!(sent.len(), 1);
    assert!(matches!(outcome, Err(AuthError::AuthFailed(m)) if m == "no such user"));
}

#[test]
fn error_prompt_after_password_is_an_auth_failure() {
    let reply = Response::AuthMessage {
        auth_message_type: AuthMessageType::Error,
        auth_message: "account locked".to_string(),
    };
    let (_, outcome) = run_scripted("alice", "secret", "/bin/sh", vec![Response::Success, reply]);
    assert!(matches!(outcome, Err(AuthError::AuthFailed(m)) if m == "account locked"));
}

#[test]
fn info_prompt_after_password_is_a_protocol_error() {
    let reply = Response::AuthMessage {
        auth_message_type: AuthMessageType::Info,
        auth_message: "wait".to_string(),
    };
    let (_, outcome) = run_scripted("alice", "secret", "/bin/sh", vec![Response::Success, reply]);
    assert!(matches!(outcome, Err(AuthError::ProtocolError(m)) if m == "unexpected auth state"));
}

#[test]
fn prompt_reply_to_start_session_is_unexpected() {
    let reply = Response::AuthMessage {
        auth_message_type: AuthMessageType::Visible,
        auth_message: "login:".to_string(),
    };
    let (_, outcome) =
        run_scripted("alice", "secret", "/bin/sh", vec![Response::Success, Response::Success, reply]);
    assert!(matches!(outcome, Err(AuthError::ProtocolError(m)) if m == "unexpected response"));
}

#[test]
fn lost_connection_is_a_protocol_error() {
    let (sent, outcome) = run_scripted("alice", "secret", "/bin/sh", vec![Response::Success]);
    assert_eq!(sent.len(), 2);
    assert!(matches!(outcome, Err(AuthError::ProtocolError(m)) if m == "connection closed"));
}

#[test]
fn out_of_order_event_is_a_protocol_error() {
    let mut attempt = Attempt::new("alice", "secret", "/bin/sh");
    let action = attempt.step(Event::Received(Response::Success));
    assert!(matches!(action, Action::Finish(Err(AuthError::ProtocolError(m))) if m == "unexpected event"));
}

#[test]
fn quoted_command_line_splits_into_words() {
    let (sent, _) = run_scripted(
        "alice",
        "secret",
        "/usr/bin/env sh -c 'echo hi'",
        vec![Response::Success, Response::Success, Response::Success],
    );
    assert!(matches!(
        &sent[2],
        Request::StartSession { cmd, .. } if cmd == &vec!["/usr/bin/env", "sh", "-c", "echo hi"]
    ));
}

#[test]
fn split_and_join_round_trip() {
    let line = "/usr/bin/env sh -c 'echo hi'";
    let words = session_argv(line);
    assert_eq!(words, vec!["/usr/bin/env", "sh", "-c", "echo hi"]);
    let joined = shell_words::join(&words);
    assert_eq!(session_argv(&joined), words);
}

#[test]
fn unbalanced_quote_falls_back_to_one_word() {
    let line = "sh -c 'echo hi";
    assert_eq!(session_argv(line), vec![line.to_string()]);
    assert_eq!(command_words(line, None), vec![line.to_string()]);
    let given = vec!["a".to_string(), "b".to_string()];
    assert_eq!(command_words(line, Some(given.clone())), given);
}
