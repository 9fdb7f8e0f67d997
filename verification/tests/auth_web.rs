use loco_laravel::modules::auth::requests::{LoginParams, RegisterParams};
use loco_laravel::modules::auth::web::{
    auth_cookie, auth_cookie_name, dashboard, login_context, login_credentials_checked, login_form,
    login_submit, login_token_issued, logout, register_context, register_form, register_submit,
    register_token_issued, register_user_created, register_verification_marked,
    register_welcome_sent, session_pid, CookieChange, Session, CreateOutcome, Failure, Page, SameSite,
    TokenOutcome, WebResponse, WebStep, WebUser,
};

const SECRET: &str = "PqRwLF2rhHe8J22oBeHy";

fn token_for(pid: &str) -> String {
    loco_rs::auth::jwt::JWT::new(SECRET)
        .generate_token(3600, pid.to_string(), serde_json::Map::new())
        .unwrap()
}

fn pid_of(s: Session) -> Option<String> {
    match s {
        Session::LoggedIn(pid) => Some(pid),
        _ => None,
    }
}

fn location(r: &WebResponse) -> Option<&str> {
    match r {
        WebResponse::Redirect { to, .. } => Some(to.as_str()),
        _ => None,
    }
}

fn stored_cookie(r: &WebResponse) -> Option<(String, String)> {
    match r {
        WebResponse::Redirect { cookie: CookieChange::Store(c), .. } => Some((c.name.clone(), c.value.clone())),
        _ => None,
    }
}

fn login_error(r: &WebResponse) -> Option<(String, Option<String>)> {
    match r {
        WebResponse::Render(Page::Login(c)) => Some((c.email.clone(), c.error.clone())),
        _ => None,
    }
}

fn register_error(r: &WebResponse) -> Option<(String, String, Option<String>)> {
    match r {
        WebResponse::Render(Page::Register(c)) => Some((c.name.clone(), c.email.clone(), c.error.clone())),
        _ => None,
    }
}

fn respond(s: WebStep) -> WebResponse {
    match s {
        WebStep::Respond(r) => r,
        _ => panic!("expected an answer"),
    }
}

fn web_user(pid: &str) -> WebUser {
    WebUser {
        pid: pid.to_string(),
        name: "Web User".to_string(),
        email: "web-user@loco.com".to_string(),
    }
}

/// Logged-out visitors get both forms rendered.
#[test]
fn can_get_login_and_register_forms() {
    let login = login_form(false);
    assert_eq!(login.status_code(), Some(200));
    match &login {
        WebResponse::Render(p) => assert_eq!(p.template(), "auth/login.html"),
        _ => panic!("expected the login form"),
    }
    assert_eq!(login_error(&login), Some((String::new(), None)));

    let register = register_form(false);
    assert_eq!(register.status_code(), Some(200));
    match &register {
        WebResponse::Render(p) => assert_eq!(p.template(), "auth/register.html"),
        _ => panic!("expected the registration form"),
    }
    assert_eq!(register_error(&register), Some((String::new(), String::new(), None)));
}

#[test]
fn dashboard_redirects_to_login_when_logged_out() {
    let response = dashboard(None);
    assert_eq!(response.status_code(), Some(303));
    assert_eq!(location(&response), Some("/login"));
    assert_eq!(stored_cookie(&response), None);
}

#[test]
fn can_register_login_and_reach_dashboard() {
    let params = RegisterParams {
        email: "web-user@loco.com".to_string(),
        password: "12341234".to_string(),
        name: "Web User".to_string(),
    };
    assert!(matches!(register_submit(false), WebStep::CreateUser));
    assert!(matches!(register_user_created(&params, CreateOutcome::Created), WebStep::MarkVerificationSent));
    assert!(matches!(register_verification_marked(true), WebStep::SendWelcomeMail));
    assert!(matches!(register_welcome_sent(true), WebStep::IssueToken));
    let token = token_for("11111111-2222-3333-4444-555555555555");
    let register_response = register_token_issued(TokenOutcome::Issued(token.clone()));
    assert_eq!(register_response.status_code(), Some(303));
    assert_eq!(location(&register_response), Some("/dashboard"));
    let (cookie_name, cookie_value) = stored_cookie(&register_response).unwrap();
    assert_eq!(cookie_name, "auth_token");
    assert_eq!(cookie_value, token);

    // The cookie names the user; the dashboard shows them.
    let pid = pid_of(session_pid(Some(cookie_value.clone()), Some(SECRET.to_string()))).unwrap();
    assert_eq!(pid, "11111111-2222-3333-4444-555555555555");
    let page = dashboard(Some(web_user(&pid)));
    assert_eq!(page.status_code(), Some(200));
    match &page {
        WebResponse::Render(Page::Dashboard(c)) => {
            assert!(c.name.contains("Web User"));
            assert!(c.email.contains("web-user@loco.com"));
            assert_eq!(c.pid, pid);
        }
        _ => panic!("expected the dashboard"),
    }

    // Guest pages redirect an already-logged-in visitor away.
    let login_while_in = login_form(true);
    assert_eq!(login_while_in.status_code(), Some(303));
    assert_eq!(location(&login_while_in), Some("/dashboard"));

    let duplicate = RegisterParams {
        email: "web-user@loco.com".to_string(),
        password: "12341234".to_string(),
        name: "Someone Else".to_string(),
    };
    let dup = respond(register_user_created(&duplicate, CreateOutcome::AlreadyExists));
    assert_eq!(dup.status_code(), Some(200));
    let (_, _, error) = register_error(&dup).unwrap();
    assert!(error.unwrap().contains("Email already registered"));

    let wrong = LoginParams {
        email: "web-user@loco.com".to_string(),
        password: "wrong-password".to_string(),
    };
    assert!(matches!(login_submit(false), WebStep::CheckCredentials));
    let wrong_password = respond(login_credentials_checked(&wrong, false));
    assert_eq!(wrong_password.status_code(), Some(200));
    let (email, error) = login_error(&wrong_password).unwrap();
    assert_eq!(email, "web-user@loco.com");
    assert!(error.unwrap().contains("Invalid credentials"));

    let out = logout();
    assert_eq!(out.status_code(), Some(303));
    assert_eq!(location(&out), Some("/login"));

    let right = LoginParams {
        email: "web-user@loco.com".to_string(),
        password: "12341234".to_string(),
    };
    assert!(matches!(login_credentials_checked(&right, true), WebStep::IssueToken));
    let token2 = token_for(&pid);
    let login_response = login_token_issued(&right, TokenOutcome::Issued(token2.clone()));
    assert_eq!(login_response.status_code(), Some(303));
    assert_eq!(location(&login_response), Some("/dashboard"));
    let (_, value) = stored_cookie(&login_response).unwrap();
    let pid_again = pid_of(session_pid(Some(value), Some(SECRET.to_string()))).unwrap();
    let dashboard_again = dashboard(Some(web_user(&pid_again)));
    assert_eq!(dashboard_again.status_code(), Some(200));
}

#[test]
fn guest_pages_send_members_to_dashboard() {
    for r in [login_form(true), register_form(true), respond(login_submit(true)), respond(register_submit(true))] {
        assert_eq!(r.status_code(), Some(303));
        assert_eq!(location(&r), Some("/dashboard"));
        assert_eq!(stored_cookie(&r), None);
    }
}

#[test]
fn login_and_register_store_the_same_cookie_for_a_token() {
    let p = LoginParams { email: "a@b.c".to_string(), password: "x".to_string() };
    let a = login_token_issued(&p, TokenOutcome::Issued("tok".to_string()));
    let b = register_token_issued(TokenOutcome::Issued("tok".to_string()));
    assert_eq!(stored_cookie(&a), Some(("auth_token".to_string(), "tok".to_string())));
    assert_eq!(stored_cookie(&a), stored_cookie(&b));
    assert_eq!(location(&a), location(&b));
}

#[test]
fn session_cookie_is_http_only_on_root_path_and_lax() {
    let c = auth_cookie("abc".to_string());
    assert_eq!(c.name, "auth_token");
    assert_eq!(c.value, "abc");
    assert!(c.http_only);
    assert_eq!(c.path, "/");
    assert_eq!(c.same_site, SameSite::Lax);
    assert_eq!(auth_cookie_name(), "auth_token");
}

#[test]
fn logout_removes_the_session_cookie() {
    match logout() {
        WebResponse::Redirect { to, cookie: CookieChange::Remove(name) } => {
            assert_eq!(to, "/login");
            assert_eq!(name, auth_cookie("t".to_string()).name);
        }
        _ => panic!("expected a redirect that removes the cookie"),
    }
}

#[test]
fn failed_logins_look_alike() {
    let p = LoginParams { email: "who@x.y".to_string(), password: "pw".to_string() };
    let rejected = respond(login_credentials_checked(&p, false));
    let refused = login_token_issued(&p, TokenOutcome::Refused);
    assert_eq!(login_error(&rejected), login_error(&refused));
    assert_eq!(
        login_error(&rejected),
        Some(("who@x.y".to_string(), Some("Invalid credentials".to_string())))
    );
}

#[test]
fn login_without_jwt_settings_fails() {
    let p = LoginParams { email: "who@x.y".to_string(), password: "pw".to_string() };
    let r = login_token_issued(&p, TokenOutcome::ConfigUnavailable);
    assert!(matches!(r, WebResponse::Failed(Failure::JwtConfig)));
    assert_eq!(r.status_code(), None);
}

#[test]
fn registration_errors() {
    let p = RegisterParams {
        email: "bad".to_string(),
        password: "1".to_string(),
        name: "N".to_string(),
    };
    let failed = respond(register_user_created(&p, CreateOutcome::Failed));
    assert_eq!(
        register_error(&failed),
        Some((
            "N".to_string(),
            "bad".to_string(),
            Some("Unable to register. Please check your details.".to_string())
        ))
    );
    assert!(matches!(respond(register_verification_marked(false)), WebResponse::Failed(Failure::VerificationSent)));
    assert!(matches!(respond(register_welcome_sent(false)), WebResponse::Failed(Failure::WelcomeMail)));
    assert!(matches!(register_token_issued(TokenOutcome::Refused), WebResponse::Failed(Failure::TokenIssue)));
    assert!(matches!(register_token_issued(TokenOutcome::ConfigUnavailable), WebResponse::Failed(Failure::JwtConfig)));
}

#[test]
fn contexts_carry_their_fields() {
    let l = login_context("e@x", Some("err"));
    assert_eq!(l.email, "e@x");
    assert_eq!(l.error.as_deref(), Some("err"));
    let r = register_context("n", "e@x", None);
    assert_eq!((r.name.as_str(), r.email.as_str(), r.error), ("n", "e@x", None));
}

#[test]
fn session_needs_cookie_and_secret() {
    let token = token_for("pid-1");
    assert!(matches!(session_pid(None, Some(SECRET.to_string())), Session::LoggedOut));
    assert!(matches!(session_pid(Some(token.clone()), None), Session::LoggedOut));
    assert!(matches!(
        session_pid(Some("not-a-token".to_string()), Some(SECRET.to_string())),
        Session::LoggedOut
    ));
    // The pid comes out of the token, not the token itself.
    assert_eq!(pid_of(session_pid(Some(token), Some(SECRET.to_string()))), Some("pid-1".to_string()));
}

#[test]
fn token_signed_with_another_secret_is_logged_out() {
    let token = token_for("pid-1");
    assert!(matches!(
        session_pid(Some(token), Some("b3RoZXItc2VjcmV0LWtleQ==".to_string())),
        Session::LoggedOut
    ));
}

#[test]
fn expired_token_is_told_apart() {
    let mut claims = serde_json::Map::new();
    claims.insert("pid".to_string(), serde_json::Value::from("pid-2"));
    claims.insert("exp".to_string(), serde_json::Value::from(1u64));
    let token = jsonwebtoken::encode(
        &jsonwebtoken::Header::new(jsonwebtoken::Algorithm::HS512),
        &claims,
        &jsonwebtoken::EncodingKey::from_base64_secret(SECRET).unwrap(),
    )
    .unwrap();
    assert!(matches!(session_pid(Some(token), Some(SECRET.to_string())), Session::Expired));
}

/// Runs a registration through its steps, with the given outcomes of the
/// outside work, and gives the work asked for and the answer.
fn run_registration(
    logged_in: bool,
    created: CreateOutcome,
    recorded: bool,
    mailed: bool,
    token: TokenOutcome,
) -> (Vec<&'static str>, WebResponse) {
    let params = RegisterParams {
        email: "new@loco.com".to_string(),
        password: "12341234".to_string(),
        name: "New".to_string(),
    };
    let mut work = Vec::new();
    let mut token = Some(token);
    let mut step = register_submit(logged_in);
    loop {
        step = match step {
            WebStep::Respond(r) => return (work, r),
            WebStep::CreateUser => {
                work.push("create");
                register_user_created(&params, created)
            }
            WebStep::MarkVerificationSent => {
                work.push("mark");
                register_verification_marked(recorded)
            }
            WebStep::SendWelcomeMail => {
                work.push("mail");
                register_welcome_sent(mailed)
            }
            WebStep::IssueToken => {
                work.push("token");
                return (work, register_token_issued(token.take().unwrap()));
            }
            WebStep::CheckCredentials => panic!("registration does not check credentials"),
        };
    }
}

#[test]
fn registration_mails_once() {
    let mails = |w: &Vec<&str>| w.iter().filter(|s| **s == "mail").count();
    let (w, r) = run_registration(false, CreateOutcome::Created, true, true, TokenOutcome::Issued("t".to_string()));
    assert_eq!(mails(&w), 1);
    assert_eq!(stored_cookie(&r), Some(("auth_token".to_string(), "t".to_string())));
    let (w, _) = run_registration(true, CreateOutcome::Created, true, true, TokenOutcome::Issued("t".to_string()));
    assert_eq!(mails(&w), 0);
    let (w, r) = run_registration(false, CreateOutcome::AlreadyExists, true, true, TokenOutcome::Refused);
    assert_eq!(mails(&w), 0);
    assert_eq!(r.status_code(), Some(200));
    let (w, r) = run_registration(false, CreateOutcome::Created, false, true, TokenOutcome::Refused);
    assert_eq!(mails(&w), 0);
    assert!(matches!(r, WebResponse::Failed(Failure::VerificationSent)));
    let (w, r) = run_registration(false, CreateOutcome::Created, true, true, TokenOutcome::Refused);
    assert_eq!(mails(&w), 1);
    assert!(matches!(r, WebResponse::Failed(Failure::TokenIssue)));
}
