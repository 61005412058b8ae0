//! The login form: what the user typed, where the focus is, and what each
//! message from the screen does to it.
//!
//! The form only decides. Every outside effect (moving the focus, running an
//! authentication attempt, leaving, a power action) is returned as an
//! [`Effect`] for the screen code to carry out.

use vstd::prelude::*;

verus! {

/// What the screen reports to the form.
#[derive(Debug)]
pub enum Message {
    /// The user name field now holds this text.
    UsernameChanged(String),
    /// The password field now holds this text.
    PasswordChanged(String),
    /// The user pressed enter.
    Submit,
    /// An authentication attempt ended: success, or the text of its failure.
    AuthResult(Result<(), String>),
    /// A clock tick.
    Tick,
    /// The user asked to power off.
    Shutdown,
    /// The user asked to reboot.
    Reboot,
    /// The user asked to suspend.
    Suspend,
}

/// The field that has the focus.
#[derive(Debug, Clone, Copy, PartialEq, Eq, Structural)]
pub enum InputFocus {
    Username,
    Password,
}

/// What the screen is to do after a message.
#[derive(Debug)]
pub enum Effect {
    /// Nothing beyond redrawing.
    Nothing,
    /// Move the focus to the user name field.
    FocusUsername,
    /// Move the focus to the password field.
    FocusPassword,
    /// Run an authentication attempt with these credentials and report its
    /// outcome with [`Message::AuthResult`].
    Authenticate { username: String, password: String },
    /// Leave: the daemon starts the session.
    Exit,
    /// Power off the machine.
    Shutdown,
    /// Reboot the machine.
    Reboot,
    /// Suspend the machine.
    Suspend,
}

/// The mathematical value of an [`Effect`].
pub enum EffectView {
    Nothing,
    FocusUsername,
    FocusPassword,
    Authenticate { username: Seq<char>, password: Seq<char> },
    Exit,
    Shutdown,
    Reboot,
    Suspend,
}

impl View for Effect {
    type V = EffectView;

    open spec fn view(&self) -> EffectView {
        match self {
            Effect::Nothing => EffectView::Nothing,
            Effect::FocusUsername => EffectView::FocusUsername,
            Effect::FocusPassword => EffectView::FocusPassword,
            Effect::Authenticate { username, password } => EffectView::Authenticate {
                username: username@,
                password: password@,
            },
            Effect::Exit => EffectView::Exit,
            Effect::Shutdown => EffectView::Shutdown,
            Effect::Reboot => EffectView::Reboot,
            Effect::Suspend => EffectView::Suspend,
        }
    }
}

/// The login form.
pub struct Greeter {
    username: String,
    password: String,
    error: Option<String>,
    authenticating: bool,
    focus: InputFocus,
}

/// The mathematical value of a [`Greeter`].
pub struct GreeterView {
    pub username: Seq<char>,
    pub password: Seq<char>,
    pub error: Option<Seq<char>>,
    pub authenticating: bool,
    pub focus: InputFocus,
}

impl View for Greeter {
    type V = GreeterView;

    closed spec fn view(&self) -> GreeterView {
        GreeterView {
            username: self.username@,
            password: self.password@,
            error: match self.error {
                Some(e) => Some(e@),
                None => None,
            },
            authenticating: self.authenticating,
            focus: self.focus,
        }
    }
}

/// The message shown when enter is pressed with no user name.
pub open spec fn username_required_text() -> Seq<char> {
    "Username required"@
}

/// The message shown when enter is pressed on an empty password.
pub open spec fn password_required_text() -> Seq<char> {
    "Password required"@
}

/// An empty form with the focus on the user name.
pub open spec fn blank_form() -> GreeterView {
    GreeterView {
        username: Seq::empty(),
        password: Seq::empty(),
        error: None,
        authenticating: false,
        focus: InputFocus::Username,
    }
}

/// What enter does to the form.
///
/// While an attempt runs it does nothing. On the user name field it moves
/// on to the password. On the password field it asks for whichever of the
/// two is empty, or else starts an attempt with both.
pub open spec fn submit_spec(g: GreeterView) -> (GreeterView, EffectView) {
    if g.authenticating {
        (g, EffectView::Nothing)
    } else if g.focus == InputFocus::Username {
        (GreeterView { focus: InputFocus::Password, ..g }, EffectView::FocusPassword)
    } else if g.username.len() == 0 {
        (
            GreeterView { error: Some(username_required_text()), focus: InputFocus::Username, ..g },
            EffectView::FocusUsername,
        )
    } else if g.password.len() == 0 {
        (GreeterView { error: Some(password_required_text()), ..g }, EffectView::Nothing)
    } else {
        (
            GreeterView { authenticating: true, error: None, ..g },
            EffectView::Authenticate { username: g.username, password: g.password },
        )
    }
}

/// What a message does to the form: its next state and the effect.
///
/// Typing replaces a field and clears the error. A successful attempt
/// leaves; a failed one shows its text, clears the password and puts the
/// focus back on it.
pub open spec fn update_spec(g: GreeterView, message: Message) -> (GreeterView, EffectView) {
    match message {
        Message::UsernameChanged(v) => (GreeterView { username: v@, error: None, ..g }, EffectView::Nothing),
        Message::PasswordChanged(v) => (GreeterView { password: v@, error: None, ..g }, EffectView::Nothing),
        Message::Submit => submit_spec(g),
        Message::AuthResult(Ok(())) => (GreeterView { authenticating: false, ..g }, EffectView::Exit),
        Message::AuthResult(Err(m)) => (
            GreeterView {
                authenticating: false,
                error: Some(m@),
                password: Seq::empty(),
                focus: InputFocus::Password,
                ..g
            },
            EffectView::FocusPassword,
        ),
        Message::Tick => (g, EffectView::Nothing),
        Message::Shutdown => (g, EffectView::Shutdown),
        Message::Reboot => (g, EffectView::Reboot),
        Message::Suspend => (g, EffectView::Suspend),
    }
}

/// Enter never starts an authentication attempt while the user name is
/// empty, whatever else the form holds.
pub proof fn lemma_empty_username_never_authenticates(g: GreeterView)
    requires
        g.username.len() == 0,
    ensures
        !(update_spec(g, Message::Submit).1 is Authenticate),
{
}

/// Enter on the password field never starts an authentication attempt while
/// the password is empty, whatever else the form holds.
pub proof fn lemma_empty_password_never_authenticates(g: GreeterView)
    requires
        g.password.len() == 0,
        g.focus == InputFocus::Password,
    ensures
        !(update_spec(g, Message::Submit).1 is Authenticate),
{
}

impl Greeter {
    /// An empty form, and the effect that puts the focus on the user name.
    pub fn new() -> (r: (Greeter, Effect))
        ensures
            r.0@ == blank_form(),
            r.1@ == EffectView::FocusUsername,
    {
        let g = Greeter {
            username: String::new(),
            password: String::new(),
            error: None,
            authenticating: false,
            focus: InputFocus::Username,
        };
        (g, Effect::FocusUsername)
    }

    /// The window's title.
    pub fn title(&self) -> (r: String)
        ensures
            r@ == "grxxt"@,
    {
        String::from_str("grxxt")
    }

    /// The text of the user name field.
    pub fn username(&self) -> (r: &String)
        ensures
            r@ == self@.username,
    {
        &self.username
    }

    /// The text of the password field.
    pub fn password(&self) -> (r: &String)
        ensures
            r@ == self@.password,
    {
        &self.password
    }

    /// The error shown under the form, if any.
    pub fn error(&self) -> (r: Option<&String>)
        ensures
            match r {
                Some(e) => self@.error == Some(e@),
                None => self@.error is None,
            },
    {
        match &self.error {
            Some(e) => Some(e),
            None => None,
        }
    }

    /// Whether an authentication attempt is running.
    pub fn is_authenticating(&self) -> (r: bool)
        ensures
            r == self@.authenticating,
    {
        self.authenticating
    }

    /// The field that has the focus.
    pub fn focus(&self) -> (r: InputFocus)
        ensures
            r == self@.focus,
    {
        self.focus
    }

    /// Moves the focus to a field.
    pub fn set_focus(&mut self, focus: InputFocus)
        ensures
            final(self)@ == (GreeterView { focus, ..old(self)@ }),
    {
        self.focus = focus;
    }

    fn submit(&mut self) -> (r: Effect)
        ensures
            (final(self)@, r@) == submit_spec(old(self)@),
    {
        if self.authenticating {
            return Effect::Nothing;
        }
        if self.focus == InputFocus::Username {
            self.focus = InputFocus::Password;
            return Effect::FocusPassword;
        }
        if self.username.as_str().is_empty() {
            self.error = Some(String::from_str("Username required"));
            self.focus = InputFocus::Username;
            return Effect::FocusUsername;
        }
        if self.password.as_str().is_empty() {
            self.error = Some(String::from_str("Password required"));
            return Effect::Nothing;
        }
        self.authenticating = true;
        self.error = None;
        Effect::Authenticate { username: self.username.clone(), password: self.password.clone() }
    }

    /// Applies a message from the screen and says what the screen is to do.
    pub fn update(&mut self, message: Message) -> (r: Effect)
        ensures
            (final(self)@, r@) == update_spec(old(self)@, message),
    {
        match message {
            Message::UsernameChanged(value) => {
                self.username = value;
                self.error = None;
                Effect::Nothing
            },
            Message::PasswordChanged(value) => {
                self.password = value;
                self.error = None;
                Effect::Nothing
            },
            Message::Submit => self.submit(),
            Message::AuthResult(Ok(())) => {
                self.authenticating = false;
                Effect::Exit
            },
            Message::AuthResult(Err(msg)) => {
                self.authenticating = false;
                self.error = Some(msg);
                self.password = String::new();
                self.focus = InputFocus::Password;
                Effect::FocusPassword
            },
            Message::Tick => Effect::Nothing,
            Message::Shutdown => Effect::Shutdown,
            Message::Reboot => Effect::Reboot,
            Message::Suspend => Effect::Suspend,
        }
    }
}

} // verus!
