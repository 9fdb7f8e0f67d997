//! Browser-facing auth pages (login, register, dashboard).
//!
//! They reuse the same credentials and tokens as the JSON API; the only
//! difference is that the issued token is carried in an `auth_token`
//! `HttpOnly` cookie instead of a JSON body, so a plain HTML form stays
//! logged in across requests. There is no separate session store: a
//! visitor is logged in when that cookie holds a token that validates.
//!
//! Each page is a short exchange between decisions and outside work (the
//! session lookup, the user store, the mailer, the token issuer). The
//! decisions stand here as functions from what the last piece of outside
//! work returned to the next [`WebStep`]; the caller performs the step and
//! hands its outcome to the next function, until a [`WebResponse`] comes.
use vstd::prelude::*;
use super::requests::{LoginParams, RegisterParams};
use crate::routing::opt_string_view;

verus! {

// ---------------------------------------------------------------------------
// Cookie
// ---------------------------------------------------------------------------

/// The name of the cookie that carries the session token.
pub open spec fn spec_auth_cookie_name() -> Seq<char> {
    "auth_token"@
}

/// The name of the cookie that carries the session token.
pub fn auth_cookie_name() -> (n: &'static str)
    ensures
        n@ == spec_auth_cookie_name(),
{
    "auth_token"
}

/// When a browser sends a cookie along with a cross-site request.
#[derive(Clone, Copy, Debug, PartialEq, Eq, Structural)]
pub enum SameSite {
    Strict,
    Lax,
    NoRestriction,
}

/// A cookie to set on the browser.
pub struct AuthCookie {
    pub name: String,
    pub value: String,
    pub http_only: bool,
    pub path: String,
    pub same_site: SameSite,
}

pub struct AuthCookieView {
    pub name: Seq<char>,
    pub value: Seq<char>,
    pub http_only: bool,
    pub path: Seq<char>,
    pub same_site: SameSite,
}

impl View for AuthCookie {
    type V = AuthCookieView;

    open spec fn view(&self) -> AuthCookieView {
        AuthCookieView {
            name: self.name@,
            value: self.value@,
            http_only: self.http_only,
            path: self.path@,
            same_site: self.same_site,
        }
    }
}

/// The session cookie for `token`: named `auth_token`, hidden from scripts,
/// sent for every path of the site and withheld from cross-site subrequests.
pub open spec fn spec_auth_cookie(token: Seq<char>) -> AuthCookieView {
    AuthCookieView {
        name: spec_auth_cookie_name(),
        value: token,
        http_only: true,
        path: "/"@,
        same_site: SameSite::Lax,
    }
}

/// The session cookie that carries `token`.
pub fn auth_cookie(token: String) -> (c: AuthCookie)
    ensures
        c@ == spec_auth_cookie(token@),
{
    AuthCookie {
        name: auth_cookie_name().to_owned(),
        value: token,
        http_only: true,
        path: "/".to_owned(),
        same_site: SameSite::Lax,
    }
}

// ---------------------------------------------------------------------------
// Page contexts
// ---------------------------------------------------------------------------

pub open spec fn opt_str_view(s: Option<&str>) -> Option<Seq<char>> {
    match s {
        Some(v) => Some(v@),
        None => None,
    }
}

fn to_owned_opt(s: Option<&str>) -> (r: Option<String>)
    ensures
        opt_string_view(r) == opt_str_view(s),
{
    match s {
        Some(v) => Some(v.to_owned()),
        None => None,
    }
}

/// What the login template shows: the email to refill and an error, if any.
pub struct LoginContext {
    pub email: String,
    pub error: Option<String>,
}

pub struct LoginContextView {
    pub email: Seq<char>,
    pub error: Option<Seq<char>>,
}

impl View for LoginContext {
    type V = LoginContextView;

    open spec fn view(&self) -> LoginContextView {
        LoginContextView { email: self.email@, error: opt_string_view(self.error) }
    }
}

/// What the registration template shows: the name and email to refill and
/// an error, if any.
pub struct RegisterContext {
    pub name: String,
    pub email: String,
    pub error: Option<String>,
}

pub struct RegisterContextView {
    pub name: Seq<char>,
    pub email: Seq<char>,
    pub error: Option<Seq<char>>,
}

impl View for RegisterContext {
    type V = RegisterContextView;

    open spec fn view(&self) -> RegisterContextView {
        RegisterContextView { name: self.name@, email: self.email@, error: opt_string_view(self.error) }
    }
}

/// What the dashboard shows of the logged-in user.
pub struct DashboardContext {
    pub name: String,
    pub email: String,
    pub pid: String,
}

pub struct DashboardContextView {
    pub name: Seq<char>,
    pub email: Seq<char>,
    pub pid: Seq<char>,
}

impl View for DashboardContext {
    type V = DashboardContextView;

    open spec fn view(&self) -> DashboardContextView {
        DashboardContextView { name: self.name@, email: self.email@, pid: self.pid@ }
    }
}

/// The login template's context.
pub fn login_context(email: &str, error: Option<&str>) -> (c: LoginContext)
    ensures
        c@ == (LoginContextView { email: email@, error: opt_str_view(error) }),
{
    LoginContext { email: email.to_owned(), error: to_owned_opt(error) }
}

/// The registration template's context.
pub fn register_context(name: &str, email: &str, error: Option<&str>) -> (c: RegisterContext)
    ensures
        c@ == (RegisterContextView { name: name@, email: email@, error: opt_str_view(error) }),
{
    RegisterContext { name: name.to_owned(), email: email.to_owned(), error: to_owned_opt(error) }
}

// ---------------------------------------------------------------------------
// Responses
// ---------------------------------------------------------------------------

/// A page rendered from a template.
pub enum Page {
    Login(LoginContext),
    Register(RegisterContext),
    Dashboard(DashboardContext),
}

pub enum PageView {
    Login(LoginContextView),
    Register(RegisterContextView),
    Dashboard(DashboardContextView),
}

impl View for Page {
    type V = PageView;

    open spec fn view(&self) -> PageView {
        match self {
            Page::Login(c) => PageView::Login(c@),
            Page::Register(c) => PageView::Register(c@),
            Page::Dashboard(c) => PageView::Dashboard(c@),
        }
    }
}

impl Page {
    /// The template that renders this page.
    pub fn template(&self) -> (t: &'static str)
        ensures
            self is Login ==> t@ == "auth/login.html"@,
            self is Register ==> t@ == "auth/register.html"@,
            self is Dashboard ==> t@ == "auth/dashboard.html"@,
    {
        match self {
            Page::Login(_) => "auth/login.html",
            Page::Register(_) => "auth/register.html",
            Page::Dashboard(_) => "auth/dashboard.html",
        }
    }
}

/// What a redirect does to the session cookie.
pub enum CookieChange {
    /// Leave the browser's cookies as they are.
    Keep,
    /// Store this cookie on the browser.
    Store(AuthCookie),
    /// Remove the cookie with this name.
    Remove(String),
}

pub enum CookieChangeView {
    Keep,
    Store(AuthCookieView),
    Remove(Seq<char>),
}

impl View for CookieChange {
    type V = CookieChangeView;

    open spec fn view(&self) -> CookieChangeView {
        match self {
            CookieChange::Keep => CookieChangeView::Keep,
            CookieChange::Store(c) => CookieChangeView::Store(c@),
            CookieChange::Remove(n) => CookieChangeView::Remove(n@),
        }
    }
}

/// Outside work that failed in a way the page does not answer itself; the
/// error is passed up to the framework's error handling.
#[derive(Clone, Copy, Debug, PartialEq, Eq, Structural)]
pub enum Failure {
    /// The JWT settings could not be read from the configuration.
    JwtConfig,
    /// The user store did not record that the verification mail went out.
    VerificationSent,
    /// The welcome mail could not be sent.
    WelcomeMail,
    /// No token could be issued for a freshly registered user.
    TokenIssue,
}

/// The answer to a page request.
pub enum WebResponse {
    /// Status 200 with the rendered page.
    Render(Page),
    /// Status 303 to `to`, with a change to the session cookie.
    Redirect { to: String, cookie: CookieChange },
    /// An error for the framework to answer.
    Failed(Failure),
}

pub enum WebResponseView {
    Render(PageView),
    Redirect { to: Seq<char>, cookie: CookieChangeView },
    Failed(Failure),
}

impl View for WebResponse {
    type V = WebResponseView;

    open spec fn view(&self) -> WebResponseView {
        match self {
            WebResponse::Render(p) => WebResponseView::Render(p@),
            WebResponse::Redirect { to, cookie } => WebResponseView::Redirect { to: to@, cookie: cookie@ },
            WebResponse::Failed(f) => WebResponseView::Failed(*f),
        }
    }
}

/// The HTTP status of a response; a failure's status is chosen by the
/// framework's error handling.
pub open spec fn spec_status_code(r: WebResponseView) -> Option<u16> {
    match r {
        WebResponseView::Render(_) => Some(200),
        WebResponseView::Redirect { .. } => Some(303),
        WebResponseView::Failed(_) => None,
    }
}

impl WebResponse {
    /// The HTTP status of this response: 200 for a rendered page, 303 (See
    /// Other) for a redirect, none for a failure.
    pub fn status_code(&self) -> (s: Option<u16>)
        ensures
            s == spec_status_code(self@),
    {
        match self {
            WebResponse::Render(_) => Some(200),
            WebResponse::Redirect { .. } => Some(303),
            WebResponse::Failed(_) => None,
        }
    }
}

/// A redirect to `to` that leaves the cookies alone.
pub open spec fn spec_redirect(to: Seq<char>) -> WebResponseView {
    WebResponseView::Redirect { to, cookie: CookieChangeView::Keep }
}

fn redirect(to: &str) -> (r: WebResponse)
    ensures
        r@ == spec_redirect(to@),
{
    WebResponse::Redirect { to: to.to_owned(), cookie: CookieChange::Keep }
}

/// The answer to a logged-in visitor on a guest page.
pub open spec fn spec_to_dashboard() -> WebResponseView {
    spec_redirect("/dashboard"@)
}

/// The answer to a logged-out visitor on a member page.
pub open spec fn spec_to_login() -> WebResponseView {
    spec_redirect("/login"@)
}

/// The answer to a successful login or registration that issued `token`.
pub open spec fn spec_signed_in(token: Seq<char>) -> WebResponseView {
    WebResponseView::Redirect {
        to: "/dashboard"@,
        cookie: CookieChangeView::Store(spec_auth_cookie(token)),
    }
}

// ---------------------------------------------------------------------------
// Steps
// ---------------------------------------------------------------------------

/// What a page needs next: outside work, or the answer.
pub enum WebStep {
    /// Answer the request.
    Respond(WebResponse),
    /// Look the user up by the submitted email and check the submitted
    /// password; report whether both succeeded.
    CheckCredentials,
    /// Create a user from the submitted registration form.
    CreateUser,
    /// Record that the email verification was sent to the new user.
    MarkVerificationSent,
    /// Send the welcome mail to the new user.
    SendWelcomeMail,
    /// Read the JWT settings and issue a token for the user.
    IssueToken,
}

pub enum WebStepView {
    Respond(WebResponseView),
    CheckCredentials,
    CreateUser,
    MarkVerificationSent,
    SendWelcomeMail,
    IssueToken,
}

impl View for WebStep {
    type V = WebStepView;

    open spec fn view(&self) -> WebStepView {
        match self {
            WebStep::Respond(r) => WebStepView::Respond(r@),
            WebStep::CheckCredentials => WebStepView::CheckCredentials,
            WebStep::CreateUser => WebStepView::CreateUser,
            WebStep::MarkVerificationSent => WebStepView::MarkVerificationSent,
            WebStep::SendWelcomeMail => WebStepView::SendWelcomeMail,
            WebStep::IssueToken => WebStepView::IssueToken,
        }
    }
}

/// What came of reading the JWT settings and issuing a token.
pub enum TokenOutcome {
    /// The JWT settings could not be read.
    ConfigUnavailable,
    /// The settings were read, but no token could be issued.
    Refused,
    /// This token was issued.
    Issued(String),
}

pub enum TokenOutcomeView {
    ConfigUnavailable,
    Refused,
    Issued(Seq<char>),
}

impl View for TokenOutcome {
    type V = TokenOutcomeView;

    open spec fn view(&self) -> TokenOutcomeView {
        match self {
            TokenOutcome::ConfigUnavailable => TokenOutcomeView::ConfigUnavailable,
            TokenOutcome::Refused => TokenOutcomeView::Refused,
            TokenOutcome::Issued(t) => TokenOutcomeView::Issued(t@),
        }
    }
}

/// What came of creating a user from the registration form.
#[derive(Clone, Copy, Debug, PartialEq, Eq, Structural)]
pub enum CreateOutcome {
    Created,
    /// A user with that email exists already.
    AlreadyExists,
    /// Any other failure (for instance a form that does not validate).
    Failed,
}

/// The user that a valid session names, as the dashboard shows it.
pub struct WebUser {
    pub pid: String,
    pub name: String,
    pub email: String,
}

// ---------------------------------------------------------------------------
// Session
// ---------------------------------------------------------------------------

/// The `pid` claim of `token` when every check that loco's
/// `JWT::new(secret).validate(token)` makes, except the expiry check, passes:
/// the secret decodes as base64, the token's header names HS512, its HS512
/// signature verifies with that key, its claims decode (with a `pid` and an
/// `exp`), and it carries no `aud` claim (no audience is configured, so any
/// audience is rejected). `None` when one of these fails. None of these
/// checks reads the clock; only the expiry check does.
pub uninterp spec fn jwt_verified_pid(secret: Seq<char>, token: Seq<char>) -> Option<Seq<char>>;

/// What came of checking a session token.
pub enum TokenCheck {
    /// The token validated; this is its `pid` claim.
    Valid(String),
    /// The token was refused as expired.
    Expired,
    /// The token was refused for another reason.
    Rejected,
}

/// Calls `loco_rs::auth::jwt::JWT::new(secret).validate(token)` and tells
/// a validated token (with its `pid` claim), an expired one, and any other
/// refusal apart.
///
/// A `pid` that comes back is `jwt_verified_pid(secret, token)`; a refusal
/// other than expiry means that `jwt_verified_pid(secret, token)` is `None`.
/// Left unsaid: when a token counts as expired, which depends on the clock.
/// The expiry check runs before the audience check, so an expired token says
/// nothing of `jwt_verified_pid` either.
#[verifier::external_body]
fn check_token(secret: &str, token: &str) -> (c: TokenCheck)
    ensures
        c matches TokenCheck::Valid(p) ==> jwt_verified_pid(secret@, token@) == Some(p@),
        c is Rejected ==> jwt_verified_pid(secret@, token@) is None,
{
    match loco_rs::auth::jwt::JWT::new(secret).validate(token) {
        Ok(data) => TokenCheck::Valid(data.claims.pid),
        Err(e) => match e.kind() {
            jsonwebtoken::errors::ErrorKind::ExpiredSignature => TokenCheck::Expired,
            _ => TokenCheck::Rejected,
        },
    }
}

/// Whether a visitor has a session, and whose.
pub enum Session {
    /// The session cookie names the user with this `pid`.
    LoggedIn(String),
    /// The session cookie holds a token that expired.
    Expired,
    /// No session: no cookie, no JWT settings, or a token that does not
    /// check out.
    LoggedOut,
}

/// The `pid` that a cookie token names under a JWT secret, when both are
/// present, setting the expiry aside.
pub open spec fn verified_session_pid(cookie_token: Option<String>, jwt_secret: Option<String>) -> Option<
    Seq<char>,
> {
    match (cookie_token, jwt_secret) {
        (Some(t), Some(k)) => jwt_verified_pid(k@, t@),
        _ => None,
    }
}

/// `s` is the session of the user with `pid`.
pub open spec fn logged_in_as(s: Session, pid: Seq<char>) -> bool {
    match s {
        Session::LoggedIn(p) => p@ == pid,
        _ => false,
    }
}

/// The session that the session cookie names: the token from the
/// `auth_token` cookie, validated with the configured JWT secret.
///
/// A missing cookie or missing JWT settings mean no session. A token whose
/// signature and claims check out with the secret gives its `pid`, unless it
/// has expired; any other token gives no session. The page handlers treat an
/// expired session like no session.
pub fn session_pid(cookie_token: Option<String>, jwt_secret: Option<String>) -> (s: Session)
    ensures
        (cookie_token is None || jwt_secret is None) ==> s is LoggedOut,
        s matches Session::LoggedIn(p) ==> verified_session_pid(cookie_token, jwt_secret) == Some(p@),
        verified_session_pid(cookie_token, jwt_secret) matches Some(p) ==> (s is Expired
            || logged_in_as(s, p)),
        s is LoggedOut ==> verified_session_pid(cookie_token, jwt_secret) is None,
        s is Expired ==> cookie_token is Some && jwt_secret is Some,
{
    let token = match cookie_token {
        Some(t) => t,
        None => return Session::LoggedOut,
    };
    let secret = match jwt_secret {
        Some(k) => k,
        None => return Session::LoggedOut,
    };
    session_from_check(check_token(secret.as_str(), token.as_str()))
}

/// The session that a token check gives: a validated token logs its `pid`
/// in, an expired token is an expired session, any other refusal is no
/// session.
pub fn session_from_check(check: TokenCheck) -> (s: Session)
    ensures
        check matches TokenCheck::Valid(p) ==> logged_in_as(s, p@),
        s matches Session::LoggedIn(q) ==> (check matches TokenCheck::Valid(p) && p@ == q@),
        s is Expired <==> check is Expired,
        s is LoggedOut <==> check is Rejected,
{
    match check {
        TokenCheck::Valid(pid) => Session::LoggedIn(pid),
        TokenCheck::Expired => Session::Expired,
        TokenCheck::Rejected => Session::LoggedOut,
    }
}

// ---------------------------------------------------------------------------
// Pages
// ---------------------------------------------------------------------------

pub open spec fn spec_invalid_credentials() -> Seq<char> {
    "Invalid credentials"@
}

pub open spec fn spec_email_taken() -> Seq<char> {
    "Email already registered"@
}

pub open spec fn spec_registration_failed() -> Seq<char> {
    "Unable to register. Please check your details."@
}

/// The login form, refilled with `email`, showing `error`.
pub open spec fn spec_login_page(email: Seq<char>, error: Option<Seq<char>>) -> WebResponseView {
    WebResponseView::Render(PageView::Login(LoginContextView { email, error }))
}

/// The registration form, refilled with `name` and `email`, showing `error`.
pub open spec fn spec_register_page(
    name: Seq<char>,
    email: Seq<char>,
    error: Option<Seq<char>>,
) -> WebResponseView {
    WebResponseView::Render(PageView::Register(RegisterContextView { name, email, error }))
}

/// `GET /login`.
pub open spec fn spec_login_form(logged_in: bool) -> WebResponseView {
    if logged_in {
        spec_to_dashboard()
    } else {
        spec_login_page(""@, None)
    }
}

/// `GET /login`: the empty login form, or the dashboard for a visitor who
/// is logged in already.
pub fn login_form(logged_in: bool) -> (r: WebResponse)
    ensures
        r@ == spec_login_form(logged_in),
{
    if logged_in {
        return redirect("/dashboard");
    }
    WebResponse::Render(Page::Login(login_context("", None)))
}

/// `GET /register`.
pub open spec fn spec_register_form(logged_in: bool) -> WebResponseView {
    if logged_in {
        spec_to_dashboard()
    } else {
        spec_register_page(""@, ""@, None)
    }
}

/// `GET /register`: the empty registration form, or the dashboard for a
/// visitor who is logged in already.
pub fn register_form(logged_in: bool) -> (r: WebResponse)
    ensures
        r@ == spec_register_form(logged_in),
{
    if logged_in {
        return redirect("/dashboard");
    }
    WebResponse::Render(Page::Register(register_context("", "", None)))
}

/// `POST /login`, first step.
pub open spec fn spec_login_submit(logged_in: bool) -> WebStepView {
    if logged_in {
        WebStepView::Respond(spec_to_dashboard())
    } else {
        WebStepView::CheckCredentials
    }
}

/// `POST /login`, once the session is known: a visitor who is logged in
/// already goes to the dashboard; anyone else has the credentials checked.
pub fn login_submit(logged_in: bool) -> (s: WebStep)
    ensures
        s@ == spec_login_submit(logged_in),
{
    if logged_in {
        return WebStep::Respond(redirect("/dashboard"));
    }
    WebStep::CheckCredentials
}

/// `POST /login`, once the credentials are checked.
pub open spec fn spec_login_credentials_checked(email: Seq<char>, accepted: bool) -> WebStepView {
    if accepted {
        WebStepView::IssueToken
    } else {
        WebStepView::Respond(spec_login_page(email, Some(spec_invalid_credentials())))
    }
}

/// `POST /login`, once the credentials are checked: accepted credentials
/// get a token issued; otherwise (no such user, a store error, or a wrong
/// password, which are not told apart) the form comes back with the email
/// and "Invalid credentials".
pub fn login_credentials_checked(params: &LoginParams, accepted: bool) -> (s: WebStep)
    ensures
        s@ == spec_login_credentials_checked(params.email@, accepted),
{
    if accepted {
        return WebStep::IssueToken;
    }
    WebStep::Respond(
        WebResponse::Render(Page::Login(login_context(params.email.as_str(), Some("Invalid credentials")))),
    )
}

/// `POST /login`, once a token was asked for.
pub open spec fn spec_login_token_issued(email: Seq<char>, token: TokenOutcomeView) -> WebResponseView {
    match token {
        TokenOutcomeView::ConfigUnavailable => WebResponseView::Failed(Failure::JwtConfig),
        TokenOutcomeView::Refused => spec_login_page(email, Some(spec_invalid_credentials())),
        TokenOutcomeView::Issued(t) => spec_signed_in(t),
    }
}

/// `POST /login`, once a token was asked for: an issued token is stored in
/// the session cookie and the visitor goes to the dashboard; a refused one
/// is answered like wrong credentials; missing JWT settings are an error.
pub fn login_token_issued(params: &LoginParams, token: TokenOutcome) -> (r: WebResponse)
    ensures
        r@ == spec_login_token_issued(params.email@, token@),
{
    match token {
        TokenOutcome::ConfigUnavailable => WebResponse::Failed(Failure::JwtConfig),
        TokenOutcome::Refused => WebResponse::Render(
            Page::Login(login_context(params.email.as_str(), Some("Invalid credentials"))),
        ),
        TokenOutcome::Issued(t) => WebResponse::Redirect {
            to: "/dashboard".to_owned(),
            cookie: CookieChange::Store(auth_cookie(t)),
        },
    }
}

/// `POST /register`, first step.
pub open spec fn spec_register_submit(logged_in: bool) -> WebStepView {
    if logged_in {
        WebStepView::Respond(spec_to_dashboard())
    } else {
        WebStepView::CreateUser
    }
}

/// `POST /register`, once the session is known: a visitor who is logged in
/// already goes to the dashboard; for anyone else the user is created.
pub fn register_submit(logged_in: bool) -> (s: WebStep)
    ensures
        s@ == spec_register_submit(logged_in),
{
    if logged_in {
        return WebStep::Respond(redirect("/dashboard"));
    }
    WebStep::CreateUser
}

/// `POST /register`, once the user store answered.
pub open spec fn spec_register_user_created(
    name: Seq<char>,
    email: Seq<char>,
    outcome: CreateOutcome,
) -> WebStepView {
    match outcome {
        CreateOutcome::Created => WebStepView::MarkVerificationSent,
        CreateOutcome::AlreadyExists => WebStepView::Respond(
            spec_register_page(name, email, Some(spec_email_taken())),
        ),
        CreateOutcome::Failed => WebStepView::Respond(
            spec_register_page(name, email, Some(spec_registration_failed())),
        ),
    }
}

/// `POST /register`, once the user store answered: a new user goes on to
/// the verification record; a taken email, or any other failure, brings the
/// form back with the name, the email and a message saying which.
pub fn register_user_created(params: &RegisterParams, outcome: CreateOutcome) -> (s: WebStep)
    ensures
        s@ == spec_register_user_created(params.name@, params.email@, outcome),
{
    match outcome {
        CreateOutcome::Created => WebStep::MarkVerificationSent,
        CreateOutcome::AlreadyExists => WebStep::Respond(
            WebResponse::Render(
                Page::Register(
                    register_context(
                        params.name.as_str(),
                        params.email.as_str(),
                        Some("Email already registered"),
                    ),
                ),
            ),
        ),
        CreateOutcome::Failed => WebStep::Respond(
            WebResponse::Render(
                Page::Register(
                    register_context(
                        params.name.as_str(),
                        params.email.as_str(),
                        Some("Unable to register. Please check your details."),
                    ),
                ),
            ),
        ),
    }
}

/// `POST /register`, once the verification record was attempted.
pub open spec fn spec_register_verification_marked(recorded: bool) -> WebStepView {
    if recorded {
        WebStepView::SendWelcomeMail
    } else {
        WebStepView::Respond(WebResponseView::Failed(Failure::VerificationSent))
    }
}

/// `POST /register`, once the verification record was attempted: on to the
/// welcome mail, or an error.
pub fn register_verification_marked(recorded: bool) -> (s: WebStep)
    ensures
        s@ == spec_register_verification_marked(recorded),
{
    if recorded {
        WebStep::SendWelcomeMail
    } else {
        WebStep::Respond(WebResponse::Failed(Failure::VerificationSent))
    }
}

/// `POST /register`, once the welcome mail was attempted.
pub open spec fn spec_register_welcome_sent(sent: bool) -> WebStepView {
    if sent {
        WebStepView::IssueToken
    } else {
        WebStepView::Respond(WebResponseView::Failed(Failure::WelcomeMail))
    }
}

/// `POST /register`, once the welcome mail was attempted: on to the token,
/// or an error.
pub fn register_welcome_sent(sent: bool) -> (s: WebStep)
    ensures
        s@ == spec_register_welcome_sent(sent),
{
    if sent {
        WebStep::IssueToken
    } else {
        WebStep::Respond(WebResponse::Failed(Failure::WelcomeMail))
    }
}

/// `POST /register`, once a token was asked for.
pub open spec fn spec_register_token_issued(token: TokenOutcomeView) -> WebResponseView {
    match token {
        TokenOutcomeView::ConfigUnavailable => WebResponseView::Failed(Failure::JwtConfig),
        TokenOutcomeView::Refused => WebResponseView::Failed(Failure::TokenIssue),
        TokenOutcomeView::Issued(t) => spec_signed_in(t),
    }
}

/// `POST /register`, once a token was asked for: an issued token is stored
/// in the session cookie and the new user goes to the dashboard; otherwise
/// an error.
pub fn register_token_issued(token: TokenOutcome) -> (r: WebResponse)
    ensures
        r@ == spec_register_token_issued(token@),
{
    match token {
        TokenOutcome::ConfigUnavailable => WebResponse::Failed(Failure::JwtConfig),
        TokenOutcome::Refused => WebResponse::Failed(Failure::TokenIssue),
        TokenOutcome::Issued(t) => WebResponse::Redirect {
            to: "/dashboard".to_owned(),
            cookie: CookieChange::Store(auth_cookie(t)),
        },
    }
}

/// `POST /logout`.
pub open spec fn spec_logout() -> WebResponseView {
    WebResponseView::Redirect {
        to: "/login"@,
        cookie: CookieChangeView::Remove(spec_auth_cookie_name()),
    }
}

/// `POST /logout`: remove the session cookie and go to the login form.
pub fn logout() -> (r: WebResponse)
    ensures
        r@ == spec_logout(),
{
    WebResponse::Redirect {
        to: "/login".to_owned(),
        cookie: CookieChange::Remove(auth_cookie_name().to_owned()),
    }
}

/// `GET /dashboard`.
pub open spec fn spec_dashboard(user: Option<(Seq<char>, Seq<char>, Seq<char>)>) -> WebResponseView {
    match user {
        None => spec_to_login(),
        Some((pid, name, email)) => WebResponseView::Render(
            PageView::Dashboard(DashboardContextView { name, email, pid }),
        ),
    }
}

pub open spec fn web_user_view(user: Option<WebUser>) -> Option<(Seq<char>, Seq<char>, Seq<char>)> {
    match user {
        None => None,
        Some(u) => Some((u.pid@, u.name@, u.email@)),
    }
}

/// `GET /dashboard`, once the session is known: the logged-in user's name,
/// email and pid, or the login form for a visitor who is not logged in.
pub fn dashboard(user: Option<WebUser>) -> (r: WebResponse)
    ensures
        r@ == spec_dashboard(web_user_view(user)),
{
    match user {
        None => redirect("/login"),
        Some(u) => WebResponse::Render(
            Page::Dashboard(DashboardContext { name: u.name, email: u.email, pid: u.pid }),
        ),
    }
}

// ---------------------------------------------------------------------------
// Laws
// ---------------------------------------------------------------------------

/// Guest pages send a visitor who is logged in already to the dashboard:
/// both forms and both form submissions answer a 303 to `/dashboard` and
/// leave the session cookie alone, before any other work is done.
pub proof fn lemma_guest_pages_send_members_to_dashboard()
    ensures
        spec_login_form(true) == spec_to_dashboard(),
        spec_register_form(true) == spec_to_dashboard(),
        spec_login_submit(true) == WebStepView::Respond(spec_to_dashboard()),
        spec_register_submit(true) == WebStepView::Respond(spec_to_dashboard()),
        spec_status_code(spec_to_dashboard()) == Some(303u16),
{
}

/// Logging in and registering end alike once a token is issued: a 303 to
/// `/dashboard` that stores that very token in the session cookie.
pub proof fn lemma_sign_in_stores_issued_token(email: Seq<char>, token: Seq<char>)
    ensures
        spec_login_token_issued(email, TokenOutcomeView::Issued(token)) == spec_signed_in(token),
        spec_register_token_issued(TokenOutcomeView::Issued(token)) == spec_signed_in(token),
        spec_signed_in(token) matches WebResponseView::Redirect { to, cookie: CookieChangeView::Store(c) }
            && to == "/dashboard"@ && c.value == token,
        spec_status_code(spec_signed_in(token)) == Some(303u16),
{
}

/// The session cookie is hidden from scripts, sent for every path of the
/// site and kept from cross-site subrequests, whatever token it carries.
pub proof fn lemma_session_cookie_is_protected(token: Seq<char>)
    ensures
        spec_auth_cookie(token).name == "auth_token"@,
        spec_auth_cookie(token).http_only,
        spec_auth_cookie(token).path == "/"@,
        spec_auth_cookie(token).same_site == SameSite::Lax,
{
}

/// Logging out removes exactly the cookie that signing in stores, and
/// sends the visitor to the login form.
pub proof fn lemma_logout_removes_session_cookie(token: Seq<char>)
    ensures
        spec_logout() == (WebResponseView::Redirect {
            to: "/login"@,
            cookie: CookieChangeView::Remove(spec_auth_cookie(token).name),
        }),
        spec_status_code(spec_logout()) == Some(303u16),
{
}

/// A failed login does not tell its causes apart: rejected credentials and
/// a refused token both bring back the login form (status 200) with the
/// submitted email and the same message, and store no cookie.
pub proof fn lemma_failed_logins_look_alike(email: Seq<char>)
    ensures
        spec_login_credentials_checked(email, false) == WebStepView::Respond(
            spec_login_token_issued(email, TokenOutcomeView::Refused),
        ),
        spec_login_token_issued(email, TokenOutcomeView::Refused) == spec_login_page(
            email,
            Some(spec_invalid_credentials()),
        ),
        spec_status_code(spec_login_token_issued(email, TokenOutcomeView::Refused)) == Some(200u16),
{
}

/// The dashboard is for logged-in users only: without a session it sends
/// the visitor to the login form; with one it shows that user's name, email
/// and pid and nothing else.
pub proof fn lemma_dashboard_needs_session(pid: Seq<char>, name: Seq<char>, email: Seq<char>)
    ensures
        spec_dashboard(None) == spec_to_login(),
        spec_status_code(spec_dashboard(None)) == Some(303u16),
        spec_dashboard(Some((pid, name, email))) == WebResponseView::Render(
            PageView::Dashboard(DashboardContextView { name, email, pid }),
        ),
        spec_status_code(spec_dashboard(Some((pid, name, email)))) == Some(200u16),
{
}

/// Drives a registration from `step` as the page handler does: each step
/// that asks for outside work is performed (and recorded in the work list),
/// and its outcome is handed to the step function that follows that work,
/// until an answer comes. `fuel` bounds the number of steps; an exchange that
/// runs out of fuel, or meets a step registration never asks for, has no
/// answer.
pub open spec fn spec_register_run(
    step: WebStepView,
    fuel: nat,
    name: Seq<char>,
    email: Seq<char>,
    created: CreateOutcome,
    recorded: bool,
    mailed: bool,
    token: TokenOutcomeView,
) -> (Seq<WebStepView>, Option<WebResponseView>)
    decreases fuel,
{
    match step {
        WebStepView::Respond(r) => (Seq::empty(), Some(r)),
        WebStepView::CheckCredentials => (seq![step], None),
        _ => if fuel == 0 {
            (seq![step], None)
        } else {
            let next = match step {
                WebStepView::CreateUser => spec_register_user_created(name, email, created),
                WebStepView::MarkVerificationSent => spec_register_verification_marked(recorded),
                WebStepView::SendWelcomeMail => spec_register_welcome_sent(mailed),
                _ => WebStepView::Respond(spec_register_token_issued(token)),
            };
            let (rest, answer) = spec_register_run(
                next,
                (fuel - 1) as nat,
                name,
                email,
                created,
                recorded,
                mailed,
                token,
            );
            (seq![step] + rest, answer)
        },
    }
}

/// A whole `POST /register` exchange: the outside work performed, in order,
/// and the answer. `logged_in` is the session check, `created` the user
/// store's answer, `recorded` whether the verification record was made,
/// `mailed` whether the welcome mail went out, `token` what came of issuing
/// a token; an outcome is read only when a step asked for that work.
pub open spec fn spec_register_exchange(
    logged_in: bool,
    name: Seq<char>,
    email: Seq<char>,
    created: CreateOutcome,
    recorded: bool,
    mailed: bool,
    token: TokenOutcomeView,
) -> (Seq<WebStepView>, Option<WebResponseView>) {
    spec_register_run(spec_register_submit(logged_in), 5, name, email, created, recorded, mailed, token)
}

/// `work` asks for the welcome mail at position `i`.
pub open spec fn mails_at(work: Seq<WebStepView>, i: int) -> bool {
    0 <= i < work.len() && work[i] is SendWelcomeMail
}

/// A registration sends at most one welcome mail. It sends none when the
/// visitor is logged in already or the user could not be created, and
/// exactly one when the exchange does not end in an error. Every exchange
/// ends with an answer. For a user that was created, the work runs in this
/// order: create the user, record the verification, send the welcome mail,
/// issue the token; each only when the one before succeeded. A successful
/// registration stores the session cookie of the issued token.
pub proof fn lemma_registration_mails_once(
    logged_in: bool,
    name: Seq<char>,
    email: Seq<char>,
    created: CreateOutcome,
    recorded: bool,
    mailed: bool,
    token: TokenOutcomeView,
)
    ensures
        ({
            let (work, answer) = spec_register_exchange(
                logged_in,
                name,
                email,
                created,
                recorded,
                mailed,
                token,
            );
            &&& answer is Some
            &&& forall|i: int, j: int| mails_at(work, i) && mails_at(work, j) ==> i == j
            &&& (logged_in || created != CreateOutcome::Created) ==> forall|i: int|
                !mails_at(work, i)
            &&& (!logged_in && created == CreateOutcome::Created && !(answer.unwrap() is Failed))
                ==> (exists|i: int| mails_at(work, i))
            &&& logged_in ==> work.len() == 0
            &&& (!logged_in && created == CreateOutcome::Created) ==> {
                &&& work.len() >= 2
                &&& work[0] is CreateUser
                &&& work[1] is MarkVerificationSent
                &&& recorded ==> work.len() >= 3 && work[2] is SendWelcomeMail
                &&& (recorded && mailed) ==> work.len() == 4 && work[3] is IssueToken
                &&& !recorded ==> work.len() == 2
                &&& (recorded && !mailed) ==> work.len() == 3
            }
            &&& (!logged_in && created != CreateOutcome::Created) ==> work.len() == 1
            &&& (!logged_in && created == CreateOutcome::Created && recorded && mailed) ==> (
            token matches TokenOutcomeView::Issued(t) ==> answer == Some(spec_signed_in(t)))
        }),
{
    reveal_with_fuel(spec_register_run, 6);
    lemma_created_user_is_recorded_first(name, email);
    lemma_registration_failures_keep_form(name, email);
    let (work, answer) = spec_register_exchange(logged_in, name, email, created, recorded, mailed, token);
    if !logged_in && created == CreateOutcome::Created && recorded && mailed {
        assert(mails_at(work, 2));
    }
}

/// Accepted credentials always go on to issuing a token, whatever the email;
/// rejected ones always bring back the login form with the submitted email
/// and "Invalid credentials", and ask for no further work.
pub proof fn lemma_login_credentials_decide(email: Seq<char>)
    ensures
        spec_login_credentials_checked(email, true) == WebStepView::IssueToken,
        spec_login_credentials_checked(email, false) == WebStepView::Respond(
            WebResponseView::Render(
                PageView::Login(
                    LoginContextView { email: email, error: Some("Invalid credentials"@) },
                ),
            ),
        ),
{
}

/// A user that was created goes on to the verification record, whatever the
/// name and email: never straight to the welcome mail or the token.
pub proof fn lemma_created_user_is_recorded_first(name: Seq<char>, email: Seq<char>)
    ensures
        spec_register_user_created(name, email, CreateOutcome::Created)
            == WebStepView::MarkVerificationSent,
{
}

/// When the user cannot be created, the registration form comes back with
/// the submitted name in the name field and the submitted email in the
/// email field, and a message saying why: "Email already registered" for a
/// taken email, "Unable to register. Please check your details." otherwise.
pub proof fn lemma_registration_failures_keep_form(name: Seq<char>, email: Seq<char>)
    ensures
        spec_register_user_created(name, email, CreateOutcome::AlreadyExists) == WebStepView::Respond(
            WebResponseView::Render(
                PageView::Register(
                    RegisterContextView {
                        name: name,
                        email: email,
                        error: Some("Email already registered"@),
                    },
                ),
            ),
        ),
        spec_register_user_created(name, email, CreateOutcome::Failed) == WebStepView::Respond(
            WebResponseView::Render(
                PageView::Register(
                    RegisterContextView {
                        name: name,
                        email: email,
                        error: Some("Unable to register. Please check your details."@),
                    },
                ),
            ),
        ),
{
}

/// The response stores no cookie, or stores the session cookie of the token
/// it carries while redirecting to the dashboard.
pub open spec fn stores_only_session_cookie(r: WebResponseView) -> bool {
    match r {
        WebResponseView::Redirect { to, cookie: CookieChangeView::Store(c) } => to == "/dashboard"@ && c
            == spec_auth_cookie(c.value),
        _ => true,
    }
}

pub open spec fn step_stores_only_session_cookie(s: WebStepView) -> bool {
    match s {
        WebStepView::Respond(r) => stores_only_session_cookie(r),
        _ => true,
    }
}

/// No page stores any cookie but the session cookie, and only on the way
/// to the dashboard: whatever the session, the form and the outcomes of the
/// outside work.
pub proof fn lemma_only_session_cookies_are_stored(
    logged_in: bool,
    name: Seq<char>,
    email: Seq<char>,
    accepted: bool,
    created: CreateOutcome,
    recorded: bool,
    sent: bool,
    token: TokenOutcomeView,
    user: Option<(Seq<char>, Seq<char>, Seq<char>)>,
)
    ensures
        stores_only_session_cookie(spec_login_form(logged_in)),
        stores_only_session_cookie(spec_register_form(logged_in)),
        step_stores_only_session_cookie(spec_login_submit(logged_in)),
        step_stores_only_session_cookie(spec_login_credentials_checked(email, accepted)),
        stores_only_session_cookie(spec_login_token_issued(email, token)),
        step_stores_only_session_cookie(spec_register_submit(logged_in)),
        step_stores_only_session_cookie(spec_register_user_created(name, email, created)),
        step_stores_only_session_cookie(spec_register_verification_marked(recorded)),
        step_stores_only_session_cookie(spec_register_welcome_sent(sent)),
        stores_only_session_cookie(spec_register_token_issued(token)),
        stores_only_session_cookie(spec_logout()),
        stores_only_session_cookie(spec_dashboard(user)),
{
}

} // verus!
