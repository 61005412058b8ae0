//! A greeter for the greetd login daemon: the authentication exchange with
//! the daemon, the login form's logic and the settings with their defaults.

mod protocol;
mod greetd;
mod attempt;
mod config;
mod form;

pub use protocol::{AuthMessageType, ErrorType, Request, RequestView, Response, opt_view, words_view};
pub use greetd::{
    AuthError, AuthErrorView, AuthState, AuthStateView, auth_failed_text, auth_response_reply,
    auth_response_result, cancel_session_reply, create_session_reply,
    create_session_result, error_message, error_text, format_error, reply_failure,
    start_session_reply, start_session_result, state_result_view, unexpected_response_text,
    unit_result_view,
};
pub use attempt::{
    Action, ActionView, Attempt, AttemptView, Event, Stage, argv_of, at, command_words, fail,
    initial, lemma_attempts_independent, lemma_exchange_in_order, stage_rank, no_endpoint_text, send, session_argv, session_words,
    shell_split, step_spec, unexpected_event_text, unexpected_state_text,
};
pub use config::{
    CONFIG_PATH, Config, ConfigFile, DEFAULT_SESSION, ThemeConfig, ThemeFile, config_settled,
    default_accent, default_accent_text, default_background, default_background_text,
    default_error, default_error_text, default_foreground, default_foreground_text,
    default_session, default_session_text, entry_or, theme_settled,
};
pub use form::{
    Effect, EffectView, Greeter, GreeterView, InputFocus, Message, blank_form,
    lemma_empty_password_never_authenticates, lemma_empty_username_never_authenticates,
    password_required_text, submit_spec, update_spec, username_required_text,
};
