use vstd::prelude::*;

use crate::chat::User;
use crate::text::{blank, is_blank, same_text};
use crate::credentials::{
    check_credentials, displayed_errors, password_errors_possible, passwords_differ,
    pseudo_errors,
};
use crate::text::texts;

verus! {

/// The pages of the client.
#[derive(Clone, Copy, PartialEq, Eq, Structural, Debug)]
pub enum Page {
    Home,
    Login,
    Register,
    Chat,
}

/// The page to which a visitor of `page` is sent instead, if any: a logged-in
/// user is sent from the login and registration pages to the chat, a visitor
/// who is not logged in is sent from the chat to the login page.
pub open spec fn redirect_of(page: Page, logged_in: bool) -> Option<Page> {
    match page {
        Page::Home => None,
        Page::Login => if logged_in {
            Some(Page::Chat)
        } else {
            None
        },
        Page::Register => if logged_in {
            Some(Page::Chat)
        } else {
            None
        },
        Page::Chat => if logged_in {
            None
        } else {
            Some(Page::Login)
        },
    }
}

/// The page to which a visitor of `page` is sent instead, if any.
pub fn route_redirect(page: Page, logged_in: bool) -> (target: Option<Page>)
    ensures
        target == redirect_of(page, logged_in),
{
    match page {
        Page::Home => None,
        Page::Login | Page::Register => if logged_in {
            Some(Page::Chat)
        } else {
            None
        },
        Page::Chat => if logged_in {
            None
        } else {
            Some(Page::Login)
        },
    }
}

/// The path of a page.
pub fn page_path(page: Page) -> (path: &'static str)
    ensures
        page == Page::Home ==> path@ == "/"@,
        page == Page::Login ==> path@ == "/login"@,
        page == Page::Register ==> path@ == "/register"@,
        page == Page::Chat ==> path@ == "/chat"@,
{
    match page {
        Page::Home => "/",
        Page::Login => "/login",
        Page::Register => "/register",
        Page::Chat => "/chat",
    }
}

/// A redirection always lands on a page that the visitor may see: no visitor
/// is sent on twice.
pub proof fn law_redirect_lands(page: Page, logged_in: bool)
    ensures
        redirect_of(page, logged_in) matches Some(target) ==> redirect_of(target, logged_in)
            is None,
{
}

/// A logged-in user never stays on the login or registration page, and a
/// visitor who is not logged in never stays on the chat.
pub proof fn law_pages_guarded(page: Page, logged_in: bool)
    ensures
        logged_in && (page == Page::Login || page == Page::Register) ==> redirect_of(
            page,
            logged_in,
        ) is Some,
        !logged_in && page == Page::Chat ==> redirect_of(page, logged_in) is Some,
{
}

/// What the navigation bar shows beside the theme button.
#[derive(Debug, Clone)]
pub enum NavbarItems {
    /// Nobody is logged in: a link to the login page.
    LoginLink { target: Page },
    /// A user is logged in: the user's name, a link to the chats and the
    /// logout button.
    UserMenu { username: String, chats: Page },
}

/// What the navigation bar shows for the user logged in, if any.
pub open spec fn navbar_of(current_user: Option<User>) -> NavbarItems {
    match current_user {
        Some(u) => NavbarItems::UserMenu { username: u.username, chats: Page::Chat },
        None => NavbarItems::LoginLink { target: Page::Login },
    }
}

/// What the navigation bar shows for the user logged in, if any.
pub fn navbar_items(current_user: &Option<User>) -> (items: NavbarItems)
    ensures
        items == navbar_of(*current_user),
{
    match current_user {
        Some(u) => NavbarItems::UserMenu { username: u.username.clone(), chats: Page::Chat },
        None => NavbarItems::LoginLink { target: Page::Login },
    }
}

/// What the logout button does: it forgets the user logged in and goes to
/// the home page.
pub fn logout() -> (r: (Option<User>, Page))
    ensures
        r.0 is None,
        r.1 == Page::Home,
{
    (None, Page::Home)
}

/// After a logout the client stays on the home page, the navigation bar
/// offers the login page again, and the chat sends the visitor to the login
/// page.
pub proof fn law_logout_closes_the_chat(current_user: Option<User>, page: Page)
    requires
        current_user is None,
        page == Page::Home,
    ensures
        redirect_of(page, current_user is Some) is None,
        navbar_of(current_user) == (NavbarItems::LoginLink { target: Page::Login }),
        redirect_of(Page::Chat, current_user is Some) == Some(Page::Login),
{
}

/// The colour modes of the client; a custom mode is named by its text.
#[derive(Clone, PartialEq, Eq, Debug)]
pub enum ColorMode {
    Light,
    Dark,
    Auto,
    Custom(String),
}

/// The mode that the theme button switches to: light from dark, dark from
/// any other.
pub open spec fn toggled(mode: ColorMode) -> ColorMode {
    if mode == ColorMode::Dark {
        ColorMode::Light
    } else {
        ColorMode::Dark
    }
}

/// The mode that the theme button switches to.
pub fn toggle_theme(mode: ColorMode) -> (next: ColorMode)
    ensures
        next == toggled(mode),
{
    match mode {
        ColorMode::Dark => ColorMode::Light,
        _ => ColorMode::Dark,
    }
}

/// Whether the theme button shows the sun (in dark mode) rather than the
/// moon.
pub fn shows_sun(mode: ColorMode) -> (sun: bool)
    ensures
        sun == (mode == ColorMode::Dark),
{
    match mode {
        ColorMode::Dark => true,
        _ => false,
    }
}

/// Pressing the theme button twice from light or dark comes back to it; from
/// any mode, including automatic and custom ones, the button alternates
/// between dark and light.
pub proof fn law_toggle_alternates(mode: ColorMode)
    ensures
        (mode == ColorMode::Light || mode == ColorMode::Dark) ==> toggled(toggled(mode)) == mode,
        toggled(mode) != mode,
        toggled(toggled(toggled(mode))) == toggled(mode),
{
}

/// Whether the login button is disabled: when the pseudo is blank or the
/// password empty.
pub fn login_disabled(pseudo: &str, password: &str) -> (disabled: bool)
    ensures
        disabled == (blank(pseudo@) || password@.len() == 0),
{
    is_blank(pseudo) || password.is_empty()
}

/// Whether the registration button is disabled: while errors are shown, or
/// while the pseudo is blank or either password empty.
pub fn register_disabled(
    pseudo_errors: &Vec<String>,
    password_errors: &Vec<String>,
    passwords_differ: bool,
    pseudo: &str,
    password: &str,
    confirm_password: &str,
) -> (disabled: bool)
    ensures
        disabled == (pseudo_errors@.len() != 0 || password_errors@.len() != 0 || passwords_differ
            || blank(pseudo@) || password@.len() == 0 || confirm_password@.len() == 0),
{
    let has_ui_errors = pseudo_errors.len() != 0 || password_errors.len() != 0 || passwords_differ;
    let is_empty = is_blank(pseudo) || password.is_empty() || confirm_password.is_empty();
    has_ui_errors || is_empty
}

/// Where the login page goes with the server's answer: to the chat when the
/// account was found, else it stays and shows why.
pub fn after_login(account_found: bool) -> (r: Result<Page, String>)
    ensures
        account_found ==> r == Ok::<Page, String>(Page::Chat),
        !account_found ==> (r matches Err(m) && m@ == "Invalid pseudo or password"@),
{
    if account_found {
        Ok(Page::Chat)
    } else {
        Err(String::from_str("Invalid pseudo or password"))
    }
}

/// Where the registration page goes with the server's answer: to the login
/// page once the account is created; otherwise it stays and shows why.
pub fn after_registration(result: Result<bool, String>) -> (r: Result<Page, String>)
    ensures
        result == Ok::<bool, String>(true) ==> r == Ok::<Page, String>(Page::Login),
        result == Ok::<bool, String>(false) ==> (r matches Err(m) && m@
            == "Registration failed, try again in a few minutes."@),
        result matches Err(e) ==> (r matches Err(m) && m@ == "An unexpected error happended: "@
            + e@),
{
    match result {
        Ok(true) => Ok(Page::Login),
        Ok(false) => Err(String::from_str("Registration failed, try again in a few minutes.")),
        Err(e) => {
            let mut m = String::from_str("An unexpected error happended: ");
            m.append(e.as_str());
            Err(m)
        },
    }
}

/// A successful login lands on the chat, which a logged-in user may see; a
/// successful registration lands on the login page, which the new user, not
/// yet logged in, may see.
pub proof fn law_outcomes_land()
    ensures
        redirect_of(Page::Chat, true) is None,
        redirect_of(Page::Login, false) is None,
{
}

/// What the router does with a path: show a page, send the visitor to
/// another page, or show that nothing is there.
#[derive(Clone, Copy, PartialEq, Eq, Structural, Debug)]
pub enum Route {
    Show(Page),
    Redirect(Page),
    NotFound,
}

/// The page that lives at `path`, if any.
pub open spec fn page_at(path: Seq<char>) -> Option<Page> {
    if path == "/"@ {
        Some(Page::Home)
    } else if path == "/login"@ {
        Some(Page::Login)
    } else if path == "/register"@ {
        Some(Page::Register)
    } else if path == "/chat"@ {
        Some(Page::Chat)
    } else {
        None
    }
}

/// What the router does with `path` for a visitor who is logged in or not:
/// a path of no page is not found; the page of a path is shown unless the
/// visitor is sent elsewhere.
pub open spec fn route_of(path: Seq<char>, logged_in: bool) -> Route {
    match page_at(path) {
        None => Route::NotFound,
        Some(page) => match redirect_of(page, logged_in) {
            Some(target) => Route::Redirect(target),
            None => Route::Show(page),
        },
    }
}

/// The page that lives at `path`, if any.
pub fn page_for_path(path: &str) -> (page: Option<Page>)
    ensures
        page == page_at(path@),
{
    if same_text(path, "/") {
        Some(Page::Home)
    } else if same_text(path, "/login") {
        Some(Page::Login)
    } else if same_text(path, "/register") {
        Some(Page::Register)
    } else if same_text(path, "/chat") {
        Some(Page::Chat)
    } else {
        None
    }
}

/// What the router does with `path`.
pub fn resolve_path(path: &str, logged_in: bool) -> (route: Route)
    ensures
        route == route_of(path@, logged_in),
{
    match page_for_path(path) {
        None => Route::NotFound,
        Some(page) => match route_redirect(page, logged_in) {
            Some(target) => Route::Redirect(target),
            None => Route::Show(page),
        },
    }
}

/// The heading shown at a path of no page.
pub fn not_found_heading() -> (heading: &'static str)
    ensures
        heading@ == "404 Not Found"@,
{
    "404 Not Found"
}

/// Every page's path leads to that page (shown, or redirected from), and a
/// redirection leads to a path whose page is shown.
pub proof fn law_paths_lead_to_their_pages(page: Page, logged_in: bool)
    ensures
        page == Page::Home ==> route_of("/"@, logged_in) == Route::Show(Page::Home),
        page == Page::Login ==> page_at("/login"@) == Some(Page::Login),
        page == Page::Register ==> page_at("/register"@) == Some(Page::Register),
        page == Page::Chat ==> page_at("/chat"@) == Some(Page::Chat),
        route_of("/chat"@, logged_in) == (if logged_in {
            Route::Show(Page::Chat)
        } else {
            Route::Redirect(Page::Login)
        }),
        route_of("/login"@, logged_in) == (if logged_in {
            Route::Redirect(Page::Chat)
        } else {
            Route::Show(Page::Login)
        }),
        route_of("/register"@, logged_in) == (if logged_in {
            Route::Redirect(Page::Chat)
        } else {
            Route::Show(Page::Register)
        }),
{
    reveal_strlit("/");
    reveal_strlit("/login");
    reveal_strlit("/register");
    reveal_strlit("/chat");
    assert("/"@.len() == 1);
    assert("/login"@.len() == 6);
    assert("/register"@.len() == 9);
    assert("/chat"@.len() == 5);
    assert("/login"@ != "/"@);
    assert("/chat"@ != "/"@);
    assert("/chat"@ != "/login"@);
    assert("/register"@ != "/"@);
    assert("/register"@ != "/login"@);
    assert("/chat"@ != "/register"@);
}

/// The login form: what is typed, and the error shown.
#[derive(Debug, Clone)]
pub struct LoginForm {
    pub pseudo: String,
    pub password: String,
    pub auth_error: Option<String>,
}

/// What happens on the login page.
#[derive(Debug, Clone)]
pub enum LoginEvent {
    PseudoEdited(String),
    PasswordEdited(String),
    Submitted,
    /// The server's answer to a login request: the account, if the pseudo
    /// and password were right.
    Answered(Option<User>),
}

/// What the login page must do after an event.
#[derive(Debug, Clone)]
pub enum LoginAction {
    Nothing,
    /// Ask the server to log in with these credentials.
    SendLogin { pseudo: String, password: String },
    /// Record `user` as the logged-in user of the client, then go to `go_to`.
    SignIn { user: User, go_to: Page },
}

/// The empty login form.
pub fn initial_login_form() -> (form: LoginForm)
    ensures
        form.pseudo@.len() == 0,
        form.password@.len() == 0,
        form.auth_error is None,
{
    LoginForm { pseudo: String::new(), password: String::new(), auth_error: None }
}

/// The login form after `event`, and what the page must then do. Every edit
/// and every attempt clears the error; a right answer records the user and
/// goes to the chat; a wrong one shows why.
pub fn login_step(form: LoginForm, event: LoginEvent) -> (r: (LoginForm, LoginAction))
    ensures
        event matches LoginEvent::PseudoEdited(p) ==> (r.0.pseudo == p && r.0.password
            == form.password && r.0.auth_error is None && r.1 is Nothing),
        event matches LoginEvent::PasswordEdited(w) ==> (r.0.pseudo == form.pseudo
            && r.0.password == w && r.0.auth_error is None && r.1 is Nothing),
        event is Submitted ==> (r.0.pseudo == form.pseudo && r.0.password == form.password
            && r.0.auth_error is None && r.1 == LoginAction::SendLogin {
            pseudo: form.pseudo,
            password: form.password,
        }),
        event matches LoginEvent::Answered(Some(u)) ==> (r.0 == form && r.1
            == LoginAction::SignIn { user: u, go_to: Page::Chat }),
        event matches LoginEvent::Answered(None) ==> (r.0.auth_error matches Some(m) && m@
            == "Invalid pseudo or password"@ && r.0.pseudo == form.pseudo && r.0.password
            == form.password && r.1 is Nothing),
{
    match event {
        LoginEvent::PseudoEdited(p) => (
            LoginForm { pseudo: p, password: form.password, auth_error: None },
            LoginAction::Nothing,
        ),
        LoginEvent::PasswordEdited(w) => (
            LoginForm { pseudo: form.pseudo, password: w, auth_error: None },
            LoginAction::Nothing,
        ),
        LoginEvent::Submitted => {
            let pseudo = form.pseudo.clone();
            let password = form.password.clone();
            (
                LoginForm { pseudo: form.pseudo, password: form.password, auth_error: None },
                LoginAction::SendLogin { pseudo, password },
            )
        },
        LoginEvent::Answered(answer) => {
            let found = answer.is_some();
            match after_login(found) {
                Ok(page) => match answer {
                    Some(user) => (form, LoginAction::SignIn { user, go_to: page }),
                    None => (form, LoginAction::Nothing),
                },
                Err(message) => (
                    LoginForm {
                        pseudo: form.pseudo,
                        password: form.password,
                        auth_error: Some(message),
                    },
                    LoginAction::Nothing,
                ),
            }
        },
    }
}

/// The registration form: what is typed, the pseudo once it has settled, the
/// errors shown, the server's error and whether the account was created.
#[derive(Debug, Clone)]
pub struct RegisterForm {
    pub pseudo: String,
    pub debounced_pseudo: String,
    pub password: String,
    pub confirm_password: String,
    pub pseudo_errors: Vec<String>,
    pub password_errors: Vec<String>,
    pub passwords_differ: bool,
    pub server_error: Option<String>,
    pub register_success: bool,
}

/// What happens on the registration page.
#[derive(Debug)]
pub enum RegisterEvent {
    PseudoEdited(String),
    /// Half a second has passed since the pseudo was last edited.
    PseudoSettled,
    PasswordEdited(String),
    ConfirmEdited(String),
    Submitted,
    /// The server's answer to a registration: whether it created the account,
    /// or the error that prevented the answer.
    Answered(Result<bool, String>),
}

/// What the registration page must do after an event.
#[derive(Debug, Clone)]
pub enum RegisterAction {
    Nothing,
    /// Ask the server to create an account.
    SendRegistration { pseudo: String, password: String },
    /// Go to `page` once `delay_ms` milliseconds have passed.
    NavigateAfter { page: Page, delay_ms: u32 },
}

/// Whether the errors shown by `form` are those of checking `pseudo`,
/// `password` and `confirm_password`.
pub open spec fn shows_errors_of(
    form: RegisterForm,
    pseudo: Seq<char>,
    password: Seq<char>,
    confirm_password: Seq<char>,
) -> bool {
    &&& texts(form.pseudo_errors@) == pseudo_errors(pseudo)
    &&& password_errors_possible(pseudo, password, texts(form.password_errors@))
    &&& form.passwords_differ == passwords_differ(password, confirm_password)
}

/// Whether `a` and `b` hold the same typed texts and the same server state.
pub open spec fn same_entries(a: RegisterForm, b: RegisterForm) -> bool {
    &&& a.pseudo == b.pseudo
    &&& a.debounced_pseudo == b.debounced_pseudo
    &&& a.password == b.password
    &&& a.confirm_password == b.confirm_password
    &&& a.server_error == b.server_error
    &&& a.register_success == b.register_success
}

/// Whether `a` and `b` show the same check errors.
pub open spec fn same_check_errors(a: RegisterForm, b: RegisterForm) -> bool {
    &&& a.pseudo_errors == b.pseudo_errors
    &&& a.password_errors == b.password_errors
    &&& a.passwords_differ == b.passwords_differ
}

/// The empty registration form.
pub fn initial_register_form() -> (form: RegisterForm)
    ensures
        form.pseudo@.len() == 0 && form.debounced_pseudo@.len() == 0,
        form.password@.len() == 0 && form.confirm_password@.len() == 0,
        form.pseudo_errors@.len() == 0 && form.password_errors@.len() == 0,
        !form.passwords_differ && form.server_error is None && !form.register_success,
{
    RegisterForm {
        pseudo: String::new(),
        debounced_pseudo: String::new(),
        password: String::new(),
        confirm_password: String::new(),
        pseudo_errors: Vec::new(),
        password_errors: Vec::new(),
        passwords_differ: false,
        server_error: None,
        register_success: false,
    }
}

/// `form` with the errors of checking `pseudo`, `password` and
/// `confirm_password`.
fn with_checked_errors(form: RegisterForm, pseudo: &str, password: &str, confirm_password: &str) -> (r: RegisterForm)
    ensures
        same_entries(r, form),
        shows_errors_of(r, pseudo@, password@, confirm_password@),
{
    let checked = check_credentials(pseudo, password, confirm_password);
    let ghost was_ok = checked is Ok;
    let (shown_pseudo, shown_password, differ) = displayed_errors(checked);
    proof {
        if was_ok {
            assert(texts(shown_pseudo@) =~= Seq::<Seq<char>>::empty());
            assert(texts(shown_password@) =~= Seq::<Seq<char>>::empty());
            assert(pseudo_errors(pseudo@) =~= Seq::<Seq<char>>::empty());
        }
    }
    RegisterForm {
        pseudo_errors: shown_pseudo,
        password_errors: shown_password,
        passwords_differ: differ,
        ..form
    }
}

/// The registration form after `event`, and what the page must then do.
/// Edits re-check the credentials (an edit of the pseudo checks the pseudo
/// that had settled, as the page does); an attempt clears the server's error
/// and sends the settled pseudo; a created account is marked and the page goes
/// to the login page two seconds later; a failure shows why.
pub fn register_step(form: RegisterForm, event: RegisterEvent) -> (r: (RegisterForm, RegisterAction))
    ensures
        event matches RegisterEvent::PseudoEdited(p) ==> (r.0.pseudo == p && r.0.debounced_pseudo
            == form.debounced_pseudo && r.0.password == form.password && r.0.confirm_password
            == form.confirm_password && r.0.server_error == form.server_error
            && r.0.register_success == form.register_success && shows_errors_of(
            r.0,
            form.debounced_pseudo@,
            form.password@,
            form.confirm_password@,
        ) && r.1 is Nothing),
        event is PseudoSettled ==> (r.0.debounced_pseudo == form.pseudo && r.0.pseudo
            == form.pseudo && r.0.password == form.password && r.0.confirm_password
            == form.confirm_password && r.0.server_error == form.server_error
            && r.0.register_success == form.register_success && same_check_errors(r.0, form)
            && r.1 is Nothing),
        event matches RegisterEvent::PasswordEdited(w) ==> (r.0.password == w && r.0.pseudo
            == form.pseudo && r.0.debounced_pseudo == form.debounced_pseudo
            && r.0.confirm_password == form.confirm_password && r.0.server_error
            == form.server_error && r.0.register_success == form.register_success
            && shows_errors_of(r.0, form.pseudo@, w@, form.confirm_password@) && r.1 is Nothing),
        event matches RegisterEvent::ConfirmEdited(c) ==> (r.0.confirm_password == c && r.0.pseudo
            == form.pseudo && r.0.debounced_pseudo == form.debounced_pseudo && r.0.password
            == form.password && r.0.server_error == form.server_error && r.0.register_success
            == form.register_success && shows_errors_of(r.0, form.pseudo@, form.password@, c@)
            && r.1 is Nothing),
        event is Submitted ==> (r.0.server_error is None && r.0.pseudo == form.pseudo
            && r.0.debounced_pseudo == form.debounced_pseudo && r.0.password == form.password
            && r.0.confirm_password == form.confirm_password && r.0.register_success
            == form.register_success && same_check_errors(r.0, form) && r.1
            == RegisterAction::SendRegistration {
            pseudo: form.debounced_pseudo,
            password: form.password,
        }),
        event == RegisterEvent::Answered(Ok(true)) ==> (r.0.register_success && r.0.server_error
            == form.server_error && r.0.pseudo == form.pseudo && r.0.password == form.password
            && r.0.confirm_password == form.confirm_password && r.0.debounced_pseudo
            == form.debounced_pseudo && same_check_errors(r.0, form) && r.1
            == RegisterAction::NavigateAfter { page: Page::Login, delay_ms: 2000 }),
        event == RegisterEvent::Answered(Ok(false)) ==> (r.0.server_error matches Some(m) && m@
            == "Registration failed, try again in a few minutes."@ && r.0.register_success
            == form.register_success && r.1 is Nothing),
        event matches RegisterEvent::Answered(Err(e)) ==> (r.0.server_error matches Some(m) && m@
            == "An unexpected error happended: "@ + e@ && r.0.register_success
            == form.register_success && r.1 is Nothing),
        event is Answered ==> (r.0.pseudo == form.pseudo && r.0.password == form.password
            && r.0.confirm_password == form.confirm_password && r.0.debounced_pseudo
            == form.debounced_pseudo && same_check_errors(r.0, form)),
{
    match event {
        RegisterEvent::PseudoEdited(p) => {
            let settled = form.debounced_pseudo.clone();
            let password = form.password.clone();
            let confirm = form.confirm_password.clone();
            let checked = with_checked_errors(form, settled.as_str(), password.as_str(), confirm.as_str());
            (RegisterForm { pseudo: p, ..checked }, RegisterAction::Nothing)
        },
        RegisterEvent::PseudoSettled => {
            let settled = form.pseudo.clone();
            (RegisterForm { debounced_pseudo: settled, ..form }, RegisterAction::Nothing)
        },
        RegisterEvent::PasswordEdited(w) => {
            let pseudo = form.pseudo.clone();
            let confirm = form.confirm_password.clone();
            let checked = with_checked_errors(form, pseudo.as_str(), w.as_str(), confirm.as_str());
            (RegisterForm { password: w, ..checked }, RegisterAction::Nothing)
        },
        RegisterEvent::ConfirmEdited(c) => {
            let pseudo = form.pseudo.clone();
            let password = form.password.clone();
            let checked = with_checked_errors(form, pseudo.as_str(), password.as_str(), c.as_str());
            (RegisterForm { confirm_password: c, ..checked }, RegisterAction::Nothing)
        },
        RegisterEvent::Submitted => {
            let pseudo = form.debounced_pseudo.clone();
            let password = form.password.clone();
            (
                RegisterForm { server_error: None, ..form },
                RegisterAction::SendRegistration { pseudo, password },
            )
        },
        RegisterEvent::Answered(result) => match after_registration(result) {
            Ok(page) => (
                RegisterForm { register_success: true, ..form },
                RegisterAction::NavigateAfter { page, delay_ms: 2000 },
            ),
            Err(message) => (
                RegisterForm { server_error: Some(message), ..form },
                RegisterAction::Nothing,
            ),
        },
    }
}

} // verus!
