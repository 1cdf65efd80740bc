use rust_ui::{LoginField, Message, Page, RustUI, Theme};

fn state(theme: Theme, page: Page, email: &str, password: &str) -> RustUI {
    RustUI {
        theme,
        page,
        login_field: LoginField { email: email.to_string(), password: password.to_string() },
    }
}

fn assert_state(app: &RustUI, theme: Theme, page: Page, email: &str, password: &str) {
    assert_eq!(app.theme, theme);
    assert_eq!(app.page, page);
    assert_eq!(app.login_field.email, email);
    assert_eq!(app.login_field.password, password);
}

#[test]
fn initial_state_is_dark_login_empty() {
    let app = RustUI::new();
    assert_state(&app, Theme::Dark, Page::Login, "", "");
    assert_eq!(app.theme(), Theme::Dark);
}

#[test]
fn title_is_fixed() {
    assert_eq!(RustUI::new().title(), "Rust UI - Iced");
}

#[test]
fn toggle_theme_flips_and_twice_restores() {
    for start in [Theme::Dark, Theme::Light] {
        let mut app = state(start, Page::Register, "x", "y");
        app.update(Message::ToggleTheme);
        assert_ne!(app.theme, start);
        app.update(Message::ToggleTheme);
        assert_state(&app, start, Page::Register, "x", "y");
    }
}

#[test]
fn navigate_to_known_routes() {
    for start in [Page::Login, Page::Register] {
        let mut app = state(Theme::Light, start, "e", "p");
        app.update(Message::Router("login".to_string()));
        assert_state(&app, Theme::Light, Page::Login, "e", "p");
        let mut app = state(Theme::Light, start, "e", "p");
        app.update(Message::Router("register".to_string()));
        assert_state(&app, Theme::Light, Page::Register, "e", "p");
    }
}

#[test]
fn navigate_to_unknown_route_is_ignored() {
    for route in ["", "Login", "register ", "home"] {
        for start in [Page::Login, Page::Register] {
            let mut app = state(Theme::Dark, start, "e", "p");
            app.update(Message::Router(route.to_string()));
            assert_state(&app, Theme::Dark, start, "e", "p");
        }
    }
}

#[test]
fn fields_changed_replaces_both() {
    let mut app = state(Theme::Dark, Page::Login, "old@x", "oldpw");
    app.update(Message::LoginFieldChanged("new@x".to_string(), "".to_string()));
    assert_state(&app, Theme::Dark, Page::Login, "new@x", "");
}

#[test]
fn login_submit_changes_nothing() {
    let mut app = state(Theme::Light, Page::Register, "a", "b");
    app.update(Message::LoginSubmit);
    assert_state(&app, Theme::Light, Page::Register, "a", "b");
}

#[test]
fn scenario_fill_navigate_toggle_return() {
    let mut app = RustUI::new();
    assert_state(&app, Theme::Dark, Page::Login, "", "");
    app.update(Message::LoginFieldChanged("a@b.com".to_string(), "pw".to_string()));
    assert_state(&app, Theme::Dark, Page::Login, "a@b.com", "pw");
    app.update(Message::Router("register".to_string()));
    assert_state(&app, Theme::Dark, Page::Register, "a@b.com", "pw");
    app.update(Message::ToggleTheme);
    assert_state(&app, Theme::Light, Page::Register, "a@b.com", "pw");
    app.update(Message::Router("login".to_string()));
    assert_state(&app, Theme::Light, Page::Login, "a@b.com", "pw");
}
