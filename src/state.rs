use vstd::prelude::*;

verus! {

/// The global light / dark visual mode.
#[derive(Clone, Copy, Debug, PartialEq, Eq, Structural)]
pub enum Theme {
    Light,
    Dark,
}

/// The screen currently shown.
#[derive(Clone, Copy, Debug, PartialEq, Eq, Structural)]
pub enum Page {
    Login,
    Register,
}

/// The two text buffers of the login form.
#[derive(Clone, Debug)]
pub struct LoginField {
    pub email: String,
    pub password: String,
}

/// The events the application reacts to.
#[derive(Clone, Debug)]
pub enum Message {
    /// Flip between the light and the dark theme.
    ToggleTheme,
    /// Submit the login form; it changes nothing yet.
    LoginSubmit,
    /// Go to the page named by the route ("login" or "register").
    Router(String),
    /// Replace both form fields: the new email and the new password.
    LoginFieldChanged(String, String),
}

/// A message as a mathematical value.
pub ghost enum MessageModel {
    ToggleTheme,
    LoginSubmit,
    Router(Seq<char>),
    LoginFieldChanged(Seq<char>, Seq<char>),
}

impl View for Message {
    type V = MessageModel;

    open spec fn view(&self) -> MessageModel {
        match self {
            Message::ToggleTheme => MessageModel::ToggleTheme,
            Message::LoginSubmit => MessageModel::LoginSubmit,
            Message::Router(r) => MessageModel::Router(r@),
            Message::LoginFieldChanged(e, p) => MessageModel::LoginFieldChanged(e@, p@),
        }
    }
}

/// The whole application state as a mathematical value.
pub ghost struct AppModel {
    pub theme: Theme,
    pub page: Page,
    pub email: Seq<char>,
    pub password: Seq<char>,
}

/// The application: its theme, its page and its form fields.
pub struct RustUI {
    pub theme: Theme,
    pub page: Page,
    pub login_field: LoginField,
}

impl RustUI {
    /// The state as a mathematical value.
    pub open spec fn model(&self) -> AppModel {
        AppModel {
            theme: self.theme,
            page: self.page,
            email: self.login_field.email@,
            password: self.login_field.password@,
        }
    }
}

/// The state every run starts in.
pub open spec fn initial_model() -> AppModel {
    AppModel { theme: Theme::Dark, page: Page::Login, email: Seq::empty(), password: Seq::empty() }
}

/// The other theme.
pub open spec fn flipped(t: Theme) -> Theme {
    match t {
        Theme::Light => Theme::Dark,
        Theme::Dark => Theme::Light,
    }
}

/// The route that leads to the login page.
pub open spec fn login_route() -> Seq<char> {
    "login"@
}

/// The route that leads to the register page.
pub open spec fn register_route() -> Seq<char> {
    "register"@
}

/// The page a route leads to from `page`: unknown routes leave it as it is.
pub open spec fn routed(page: Page, route: Seq<char>) -> Page {
    if route == login_route() {
        Page::Login
    } else if route == register_route() {
        Page::Register
    } else {
        page
    }
}

/// The state after `m` is applied to `s`.
pub open spec fn transition(s: AppModel, m: MessageModel) -> AppModel {
    match m {
        MessageModel::ToggleTheme => AppModel { theme: flipped(s.theme), ..s },
        MessageModel::LoginSubmit => s,
        MessageModel::Router(r) => AppModel { page: routed(s.page, r), ..s },
        MessageModel::LoginFieldChanged(e, p) => AppModel { email: e, password: p, ..s },
    }
}

impl RustUI {
    /// The start state: dark theme, login page, empty fields.
    pub fn new() -> (r: RustUI)
        ensures
            r.model() == initial_model(),
    {
        RustUI {
            theme: Theme::Dark,
            page: Page::Login,
            login_field: LoginField { email: String::new(), password: String::new() },
        }
    }

    /// The window title.
    pub fn title(&self) -> (r: String)
        ensures
            r@ == "Rust UI - Iced"@,
    {
        "Rust UI - Iced".to_owned()
    }

    /// The active theme.
    pub fn theme(&self) -> (r: Theme)
        ensures
            r == self.theme,
    {
        self.theme
    }

    /// Applies one event to the state.
    pub fn update(&mut self, message: Message)
        ensures
            final(self).model() == transition(old(self).model(), message@),
    {
        match message {
            Message::ToggleTheme => {
                self.theme = if self.theme == Theme::Light {
                    Theme::Dark
                } else {
                    Theme::Light
                };
            },
            Message::LoginFieldChanged(email, password) => {
                self.login_field.email = email;
                self.login_field.password = password;
            },
            Message::LoginSubmit => {},
            Message::Router(route) => {
                let login = "login".to_owned();
                let register = "register".to_owned();
                if route == login {
                    self.page = Page::Login;
                } else if route == register {
                    self.page = Page::Register;
                }
            },
        }
    }
}

/// The two routes are different words.
pub proof fn lemma_routes_differ()
    ensures
        login_route() != register_route(),
{
    reveal_strlit("login");
    reveal_strlit("register");
    assert(login_route().len() != register_route().len());
}

/// Toggling the theme twice gives back the theme one started from, and
/// leaves the page and the form fields as they were.
pub proof fn lemma_toggle_twice(s: AppModel)
    ensures
        transition(transition(s, MessageModel::ToggleTheme), MessageModel::ToggleTheme) == s,
        transition(s, MessageModel::ToggleTheme).theme != s.theme,
{
}

/// Navigating to "login" always shows the login page, to "register" always
/// the register page, and to any other route leaves the page unchanged.
pub proof fn lemma_navigate(s: AppModel, route: Seq<char>)
    ensures
        route == login_route() ==> transition(s, MessageModel::Router(route)).page == Page::Login,
        route == register_route() ==> transition(s, MessageModel::Router(route)).page == Page::Register,
        route != login_route() && route != register_route() ==> transition(s, MessageModel::Router(route)).page
            == s.page,
        transition(s, MessageModel::Router(route)).theme == s.theme,
        transition(s, MessageModel::Router(route)).email == s.email,
        transition(s, MessageModel::Router(route)).password == s.password,
{
    lemma_routes_differ();
}

/// A field change replaces both fields by the given pair, whatever they held.
pub proof fn lemma_fields_changed(s: AppModel, email: Seq<char>, password: Seq<char>)
    ensures
        transition(s, MessageModel::LoginFieldChanged(email, password)).email == email,
        transition(s, MessageModel::LoginFieldChanged(email, password)).password == password,
        transition(s, MessageModel::LoginFieldChanged(email, password)).theme == s.theme,
        transition(s, MessageModel::LoginFieldChanged(email, password)).page == s.page,
{
}

/// Submitting the login form changes nothing.
pub proof fn lemma_submit_is_noop(s: AppModel)
    ensures
        transition(s, MessageModel::LoginSubmit) == s,
{
}

} // verus!
