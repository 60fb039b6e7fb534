use vaultchat::navigation::{
    login_disabled, page_path, register_disabled, route_redirect, shows_sun, toggle_theme,
    ColorMode, Page,
};
use vaultchat::security::claims_for;

#[test]
fn guarded_routes() {
    assert_eq!(route_redirect(Page::Login, true), Some(Page::Chat));
    assert_eq!(route_redirect(Page::Register, true), Some(Page::Chat));
    assert_eq!(route_redirect(Page::Chat, false), Some(Page::Login));
    assert_eq!(route_redirect(Page::Chat, true), None);
    assert_eq!(route_redirect(Page::Login, false), None);
    assert_eq!(route_redirect(Page::Home, false), None);
    assert_eq!(route_redirect(Page::Home, true), None);
}

#[test]
fn redirects_land() {
    for page in [Page::Home, Page::Login, Page::Register, Page::Chat] {
        for logged_in in [false, true] {
            if let Some(target) = route_redirect(page, logged_in) {
                assert_eq!(route_redirect(target, logged_in), None);
            }
        }
    }
}

#[test]
fn paths() {
    assert_eq!(page_path(Page::Home), "/");
    assert_eq!(page_path(Page::Chat), "/chat");
    assert_eq!(page_path(Page::Login), "/login");
    assert_eq!(page_path(Page::Register), "/register");
}

#[test]
fn theme_toggle() {
    assert_eq!(toggle_theme(ColorMode::Dark), ColorMode::Light);
    assert_eq!(toggle_theme(ColorMode::Light), ColorMode::Dark);
    assert_eq!(toggle_theme(ColorMode::Auto), ColorMode::Dark);
    assert_eq!(toggle_theme(toggle_theme(ColorMode::Light)), ColorMode::Light);
    assert!(shows_sun(ColorMode::Dark));
    assert!(!shows_sun(ColorMode::Light));
}

#[test]
fn login_button() {
    assert!(login_disabled(" ", "pw"));
    assert!(login_disabled("bob", ""));
    assert!(!login_disabled("bob", " "));
}

#[test]
fn register_button() {
    let none: Vec<String> = vec![];
    let some = vec!["e".to_string()];
    assert!(!register_disabled(&none, &none, false, "bob", "pw", "pw"));
    assert!(register_disabled(&some, &none, false, "bob", "pw", "pw"));
    assert!(register_disabled(&none, &some, false, "bob", "pw", "pw"));
    assert!(register_disabled(&none, &none, true, "bob", "pw", "pw"));
    assert!(register_disabled(&none, &none, false, "  ", "pw", "pw"));
    assert!(register_disabled(&none, &none, false, "bob", "pw", ""));
}

#[test]
fn session_claims_expire_after_two_hours() {
    let c = claims_for("user-1", 1_700_000_000);
    assert_eq!(c.sub, "user-1");
    assert_eq!(c.exp, 1_700_007_200);
}

use vaultchat::navigation::{after_login, after_registration};

#[test]
fn login_outcomes() {
    assert_eq!(after_login(true), Ok(Page::Chat));
    assert_eq!(after_login(false), Err("Invalid pseudo or password".to_string()));
    assert_eq!(route_redirect(after_login(true).unwrap(), true), None);
}

#[test]
fn registration_outcomes() {
    assert_eq!(after_registration(Ok(true)), Ok(Page::Login));
    assert_eq!(
        after_registration(Ok(false)),
        Err("Registration failed, try again in a few minutes.".to_string())
    );
    assert_eq!(
        after_registration(Err("timeout".to_string())),
        Err("An unexpected error happended: timeout".to_string())
    );
}

use vaultchat::chat::User;
use vaultchat::navigation::{
    initial_login_form, initial_register_form, login_step, not_found_heading, page_for_path,
    register_step, resolve_path, LoginAction, LoginEvent, RegisterAction, RegisterEvent, Route,
};

#[test]
fn paths_resolve() {
    assert_eq!(resolve_path("/", false), Route::Show(Page::Home));
    assert_eq!(resolve_path("/login", false), Route::Show(Page::Login));
    assert_eq!(resolve_path("/login", true), Route::Redirect(Page::Chat));
    assert_eq!(resolve_path("/register", true), Route::Redirect(Page::Chat));
    assert_eq!(resolve_path("/chat", false), Route::Redirect(Page::Login));
    assert_eq!(resolve_path("/chat", true), Route::Show(Page::Chat));
    assert_eq!(resolve_path("/nowhere", true), Route::NotFound);
    assert_eq!(resolve_path("", false), Route::NotFound);
    assert_eq!(page_for_path("/chat/"), None);
    assert_eq!(not_found_heading(), "404 Not Found");
}

fn user() -> User {
    User {
        id: "u1".to_string(),
        username: "bob".to_string(),
        public_key: "pk".to_string(),
        wrapped_private_key: "w".to_string(),
        crypto_salt: "s".to_string(),
        aes_iv: "iv".to_string(),
    }
}

#[test]
fn login_page_flow() {
    let form = initial_login_form();
    let (form, a) = login_step(form, LoginEvent::PseudoEdited("bob".to_string()));
    assert!(matches!(a, LoginAction::Nothing));
    let (form, _) = login_step(form, LoginEvent::PasswordEdited("pw".to_string()));
    let (form, a) = login_step(form, LoginEvent::Submitted);
    match a {
        LoginAction::SendLogin { pseudo, password } => assert_eq!((pseudo.as_str(), password.as_str()), ("bob", "pw")),
        _ => panic!("a submission sends the credentials"),
    }
    let (form, a) = login_step(form, LoginEvent::Answered(None));
    assert!(matches!(a, LoginAction::Nothing));
    assert_eq!(form.auth_error.as_deref(), Some("Invalid pseudo or password"));
    let (form, _) = login_step(form, LoginEvent::PasswordEdited("pw2".to_string()));
    assert!(form.auth_error.is_none());
    let (form, a) = login_step(form, LoginEvent::Answered(Some(user())));
    assert!(form.auth_error.is_none());
    match a {
        LoginAction::SignIn { user, go_to } => {
            assert_eq!(user.username, "bob");
            assert_eq!(go_to, Page::Chat);
        }
        _ => panic!("a right answer signs in"),
    }
}

#[test]
fn register_page_flow() {
    let form = initial_register_form();
    let (form, _) = register_step(form, RegisterEvent::PseudoEdited("bob".to_string()));
    // The pseudo is checked as it had settled: still empty.
    assert_eq!(form.pseudo, "bob");
    assert_eq!(form.pseudo_errors, vec!["Pseudo is mandatory".to_string()]);
    let (form, _) = register_step(form, RegisterEvent::PseudoSettled);
    assert_eq!(form.debounced_pseudo, "bob");
    let (form, _) = register_step(form, RegisterEvent::PasswordEdited("qX7#mV2!pL9@zR4$wK8^".to_string()));
    assert!(form.pseudo_errors.is_empty() && form.password_errors.is_empty());
    let (form, _) = register_step(form, RegisterEvent::ConfirmEdited("other".to_string()));
    assert!(form.passwords_differ);
    let (form, _) = register_step(form, RegisterEvent::ConfirmEdited("qX7#mV2!pL9@zR4$wK8^".to_string()));
    assert!(!form.passwords_differ);
    let (form, a) = register_step(form, RegisterEvent::Answered(Err("timeout".to_string())));
    assert!(matches!(a, RegisterAction::Nothing));
    assert_eq!(form.server_error.as_deref(), Some("An unexpected error happended: timeout"));
    let (form, a) = register_step(form, RegisterEvent::Submitted);
    assert!(form.server_error.is_none());
    match a {
        RegisterAction::SendRegistration { pseudo, .. } => assert_eq!(pseudo, "bob"),
        _ => panic!("a submission sends the registration"),
    }
    let (form, a) = register_step(form, RegisterEvent::Answered(Ok(false)));
    assert!(matches!(a, RegisterAction::Nothing));
    assert_eq!(form.server_error.as_deref(), Some("Registration failed, try again in a few minutes."));
    let (form, a) = register_step(form, RegisterEvent::Answered(Ok(true)));
    assert!(form.register_success);
    match a {
        RegisterAction::NavigateAfter { page, delay_ms } => assert_eq!((page, delay_ms), (Page::Login, 2000)),
        _ => panic!("a created account goes to the login page"),
    }
}

use vaultchat::navigation::{logout, navbar_items, NavbarItems};

#[test]
fn navbar_follows_the_user() {
    match navbar_items(&None) {
        NavbarItems::LoginLink { target } => assert_eq!(page_path(target), "/login"),
        other => panic!("unexpected {:?}", other),
    }
    match navbar_items(&Some(user())) {
        NavbarItems::UserMenu { username, chats } => {
            assert_eq!(username, "bob");
            assert_eq!(page_path(chats), "/chat");
        }
        other => panic!("unexpected {:?}", other),
    }
}

#[test]
fn logout_forgets_the_user_and_goes_home() {
    let (user, page) = logout();
    assert!(user.is_none());
    assert_eq!(page_path(page), "/");
    assert_eq!(route_redirect(page, user.is_some()), None);
    assert_eq!(route_redirect(Page::Chat, user.is_some()), Some(Page::Login));
    assert!(matches!(navbar_items(&user), NavbarItems::LoginLink { target: Page::Login }));
}
