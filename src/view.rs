use vstd::prelude::*;
use crate::state::{lemma_routes_differ, AppModel, LoginField, Message, MessageModel, Page, RustUI};
use crate::style::ButtonStyle;

verus! {

/// Which form field a text input edits.
#[derive(Clone, Copy, Debug, PartialEq, Eq, Structural)]
pub enum Field {
    Email,
    Password,
}

/// One leaf of the rendered widget tree.
#[derive(Clone, Debug)]
pub enum Widget {
    /// A text label, with an optional font size.
    Label { text: String, size: Option<u16> },
    /// A text input editing `field`, showing `value`; `other` is the current
    /// value of the sibling field, kept in the message an edit produces.
    Input { field: Field, placeholder: String, value: String, other: String },
    /// A button showing `label` that dispatches `on_press`.
    Button { label: String, on_press: Message, style: ButtonStyle },
}

/// The rendered screen: a vertical stack of page content above a footer row,
/// centred in a styled container that fills the window.
#[derive(Clone, Debug)]
pub struct Screen {
    pub body: Vec<Widget>,
    pub footer: Vec<Widget>,
}

/// The message an edit of `field` produces when the user typed `typed` and
/// the sibling field holds `other`.
pub open spec fn edit_model(field: Field, typed: Seq<char>, other: Seq<char>) -> MessageModel {
    match field {
        Field::Email => MessageModel::LoginFieldChanged(typed, other),
        Field::Password => MessageModel::LoginFieldChanged(other, typed),
    }
}

pub open spec fn is_label(w: Widget, t: Seq<char>, sz: Option<u16>) -> bool {
    match w {
        Widget::Label { text, size } => text@ == t && size == sz,
        _ => false,
    }
}

pub open spec fn is_input(w: Widget, f: Field, ph: Seq<char>, v: Seq<char>, o: Seq<char>) -> bool {
    match w {
        Widget::Input { field, placeholder, value, other } => field == f && placeholder@ == ph
            && value@ == v && other@ == o,
        _ => false,
    }
}

pub open spec fn is_button(w: Widget, l: Seq<char>, m: MessageModel, st: ButtonStyle) -> bool {
    match w {
        Widget::Button { label, on_press, style } => label@ == l && on_press@ == m && style == st,
        _ => false,
    }
}

/// The label of the footer's navigation button on `page`.
pub open spec fn nav_label(page: Page) -> Seq<char> {
    match page {
        Page::Login => "Page Two"@,
        Page::Register => "Main Page - Login"@,
    }
}

/// The route the footer's navigation button on `page` leads to.
pub open spec fn nav_route(page: Page) -> Seq<char> {
    match page {
        Page::Login => "register"@,
        Page::Register => "login"@,
    }
}

/// The content of the login page for the given field values.
pub open spec fn login_body(ws: Seq<Widget>, email: Seq<char>, password: Seq<char>) -> bool {
    &&& ws.len() == 4
    &&& is_label(ws[0], "Graphical User Interface - Iced"@, None)
    &&& is_input(ws[1], Field::Email, "Email Address ..."@, email, password)
    &&& is_input(ws[2], Field::Password, "Password ..."@, password, email)
    &&& is_button(ws[3], "Login"@, MessageModel::LoginSubmit, ButtonStyle::Standard)
}

/// The content of the register page.
pub open spec fn register_body(ws: Seq<Widget>) -> bool {
    ws.len() == 1 && is_label(ws[0], "Page two"@, Some(64u16))
}

/// The footer: a theme toggle, then the navigation button `nav`.
pub open spec fn footer_row(ws: Seq<Widget>, nav_l: Seq<char>, nav_r: Seq<char>) -> bool {
    &&& ws.len() == 2
    &&& is_button(ws[0], "Toggle Theme"@, MessageModel::ToggleTheme, ButtonStyle::ThemeButton)
    &&& is_button(ws[1], nav_l, MessageModel::Router(nav_r), ButtonStyle::ThemeButton)
}

/// `scr` is the screen rendered from state `s`.
pub open spec fn renders(s: AppModel, scr: Screen) -> bool {
    &&& match s.page {
        Page::Login => login_body(scr.body@, s.email, s.password),
        Page::Register => register_body(scr.body@),
    }
    &&& footer_row(scr.footer@, nav_label(s.page), nav_route(s.page))
}

/// How many widgets of `ws` satisfy `p`.
pub open spec fn count_where(ws: Seq<Widget>, p: spec_fn(Widget) -> bool) -> nat
    decreases ws.len(),
{
    if ws.len() == 0 {
        0
    } else {
        count_where(ws.drop_last(), p) + if p(ws.last()) {
            1nat
        } else {
            0nat
        }
    }
}

/// `w` is a text input of `f`.
pub open spec fn edits(f: Field) -> spec_fn(Widget) -> bool {
    |w: Widget|
        match w {
            Widget::Input { field, .. } => field == f,
            _ => false,
        }
}

/// `w` is a text input of either field.
pub open spec fn any_input() -> spec_fn(Widget) -> bool {
    |w: Widget| w is Input
}

/// `w` is a button that dispatches `m`.
pub open spec fn dispatches(m: MessageModel) -> spec_fn(Widget) -> bool {
    |w: Widget|
        match w {
            Widget::Button { on_press, .. } => on_press@ == m,
            _ => false,
        }
}

/// Every widget of the screen, content first.
pub open spec fn all_widgets(scr: Screen) -> Seq<Widget> {
    scr.body@ + scr.footer@
}

/// Counting over a concatenation adds the counts of the parts.
proof fn lemma_count_concat(a: Seq<Widget>, b: Seq<Widget>, p: spec_fn(Widget) -> bool)
    ensures
        count_where(a + b, p) == count_where(a, p) + count_where(b, p),
    decreases b.len(),
{
    if b.len() > 0 {
        assert((a + b).drop_last() =~= a + b.drop_last());
        lemma_count_concat(a, b.drop_last(), p);
    }
}

/// A rendered login page holds exactly one email input, showing the current
/// email, exactly one password input, showing the current password, one
/// submit control, one theme toggle and one control leading to "register".
/// A rendered register page holds one theme toggle, one control leading to
/// "login" and no input at all.
pub proof fn lemma_render_controls(s: AppModel, scr: Screen)
    requires
        renders(s, scr),
    ensures
        count_where(all_widgets(scr), dispatches(MessageModel::ToggleTheme)) == 1,
        s.page == Page::Login ==> {
            &&& count_where(all_widgets(scr), edits(Field::Email)) == 1
            &&& count_where(all_widgets(scr), edits(Field::Password)) == 1
            &&& count_where(all_widgets(scr), dispatches(MessageModel::LoginSubmit)) == 1
            &&& count_where(all_widgets(scr), dispatches(MessageModel::Router("register"@))) == 1
            &&& forall|i: int|
                0 <= i < all_widgets(scr).len() ==> match #[trigger] all_widgets(scr)[i] {
                    Widget::Input { field, value, .. } => value@ == if field == Field::Email {
                        s.email
                    } else {
                        s.password
                    },
                    _ => true,
                }
        },
        s.page == Page::Register ==> {
            &&& count_where(all_widgets(scr), any_input()) == 0
            &&& count_where(all_widgets(scr), dispatches(MessageModel::Router("login"@))) == 1
        },
{
    let b = scr.body@;
    let f = scr.footer@;
    let ps = seq![
        dispatches(MessageModel::ToggleTheme),
        edits(Field::Email),
        edits(Field::Password),
        dispatches(MessageModel::LoginSubmit),
        dispatches(MessageModel::Router("register"@)),
        any_input(),
        dispatches(MessageModel::Router("login"@)),
    ];
    assert forall|k: int| 0 <= k < ps.len() implies count_where(all_widgets(scr), #[trigger] ps[k])
        == count_where(b, ps[k]) + count_where(f, ps[k]) by {
        lemma_count_concat(b, f, ps[k]);
    }
    reveal_with_fuel(count_where, 5);
    assert(f.drop_last().drop_last() =~= Seq::<Widget>::empty());
    if s.page == Page::Login {
        assert(b.drop_last().drop_last().drop_last().drop_last() =~= Seq::<Widget>::empty());
        lemma_routes_differ();
    } else {
        assert(b.drop_last() =~= Seq::<Widget>::empty());
        lemma_routes_differ();
    }
}

/// The message a text input for `field` produces when the user typed `typed`
/// and the sibling field holds `other`: both fields travel together.
pub fn edit_message(field: Field, typed: String, other: String) -> (m: Message)
    ensures
        m@ == edit_model(field, typed@, other@),
{
    match field {
        Field::Email => Message::LoginFieldChanged(typed, other),
        Field::Password => Message::LoginFieldChanged(other, typed),
    }
}

/// The footer row: a theme toggle beside `btn`.
pub fn page_footer(btn: Widget) -> (r: Vec<Widget>)
    ensures
        r@.len() == 2,
        is_button(r@[0], "Toggle Theme"@, MessageModel::ToggleTheme, ButtonStyle::ThemeButton),
        r@[1] == btn,
{
    let toggle = Widget::Button {
        label: "Toggle Theme".to_owned(),
        on_press: Message::ToggleTheme,
        style: ButtonStyle::ThemeButton,
    };
    let mut r: Vec<Widget> = Vec::new();
    r.push(toggle);
    r.push(btn);
    r
}

/// A text input for `field` with its placeholder and current value.
pub fn input_field(field: Field, placeholder: &str, value: &str, other: &str) -> (r: Widget)
    ensures
        is_input(r, field, placeholder@, value@, other@),
{
    Widget::Input {
        field,
        placeholder: placeholder.to_owned(),
        value: value.to_owned(),
        other: other.to_owned(),
    }
}

/// The full-width submit button labelled `name` that dispatches `event`.
pub fn submit_btn(name: &str, event: Message) -> (r: Widget)
    ensures
        is_button(r, name@, event@, ButtonStyle::Standard),
{
    Widget::Button { label: name.to_owned(), on_press: event, style: ButtonStyle::Standard }
}

/// The login form: a title, the email and password inputs and the submit button.
pub fn log_in_page(login_field: &LoginField) -> (r: Vec<Widget>)
    ensures
        login_body(r@, login_field.email@, login_field.password@),
{
    let email = login_field.email.as_str();
    let password = login_field.password.as_str();
    let mut r: Vec<Widget> = Vec::new();
    r.push(Widget::Label { text: "Graphical User Interface - Iced".to_owned(), size: None });
    r.push(input_field(Field::Email, "Email Address ...", email, password));
    r.push(input_field(Field::Password, "Password ...", password, email));
    r.push(submit_btn("Login", Message::LoginSubmit));
    r
}

/// The register page: a large title only.
pub fn register_page() -> (r: Vec<Widget>)
    ensures
        register_body(r@),
{
    let mut r: Vec<Widget> = Vec::new();
    r.push(Widget::Label { text: "Page two".to_owned(), size: Some(64) });
    r
}

impl RustUI {
    /// Renders the current state: the page content above the footer row.
    pub fn view(&self) -> (r: Screen)
        ensures
            renders(self.model(), r),
    {
        let body = match self.page {
            Page::Login => log_in_page(&self.login_field),
            Page::Register => register_page(),
        };
        let nav = match self.page {
            Page::Login => Widget::Button {
                label: "Page Two".to_owned(),
                on_press: Message::Router("register".to_owned()),
                style: ButtonStyle::ThemeButton,
            },
            Page::Register => Widget::Button {
                label: "Main Page - Login".to_owned(),
                on_press: Message::Router("login".to_owned()),
                style: ButtonStyle::ThemeButton,
            },
        };
        Screen { body, footer: page_footer(nav) }
    }
}

} // verus!
