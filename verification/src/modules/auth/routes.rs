//! The auth module's two route groups: the JSON API under `/api/auth`
//! and the browser-facing pages at the root.
use vstd::prelude::*;
use crate::routing::{get, post, route, Action, HttpMethod, RouteGroup, RouteGroupView};

verus! {

/// The JSON API routes, all under the `/api/auth` prefix.
pub open spec fn spec_routes() -> RouteGroupView {
    RouteGroupView {
        prefix: Some("/api/auth"@),
        handlers: seq![
            route("/register"@, HttpMethod::Post, Action::ApiRegister),
            route("/verify/{token}"@, HttpMethod::Get, Action::ApiVerify),
            route("/login"@, HttpMethod::Post, Action::ApiLogin),
            route("/forgot"@, HttpMethod::Post, Action::ApiForgot),
            route("/reset"@, HttpMethod::Post, Action::ApiReset),
            route("/current"@, HttpMethod::Get, Action::ApiCurrent),
            route("/magic-link"@, HttpMethod::Post, Action::ApiMagicLink),
            route("/magic-link/{token}"@, HttpMethod::Get, Action::ApiMagicLinkVerify),
            route("/resend-verification-mail"@, HttpMethod::Post, Action::ApiResendVerificationMail),
        ],
    }
}

/// The browser-facing pages, at the root (no prefix).
pub open spec fn spec_web_routes() -> RouteGroupView {
    RouteGroupView {
        prefix: None,
        handlers: seq![
            route("/login"@, HttpMethod::Get, Action::WebLoginForm),
            route("/login"@, HttpMethod::Post, Action::WebLoginSubmit),
            route("/register"@, HttpMethod::Get, Action::WebRegisterForm),
            route("/register"@, HttpMethod::Post, Action::WebRegisterSubmit),
            route("/logout"@, HttpMethod::Post, Action::WebLogout),
            route("/dashboard"@, HttpMethod::Get, Action::WebDashboard),
        ],
    }
}

/// The JSON API routes of the auth module.
pub fn routes() -> (g: RouteGroup)
    ensures
        g@ == spec_routes(),
{
    let g = RouteGroup::new()
        .prefix("/api/auth")
        .add("/register", post(Action::ApiRegister))
        .add("/verify/{token}", get(Action::ApiVerify))
        .add("/login", post(Action::ApiLogin))
        .add("/forgot", post(Action::ApiForgot))
        .add("/reset", post(Action::ApiReset))
        .add("/current", get(Action::ApiCurrent))
        .add("/magic-link", post(Action::ApiMagicLink))
        .add("/magic-link/{token}", get(Action::ApiMagicLinkVerify))
        .add("/resend-verification-mail", post(Action::ApiResendVerificationMail));
    assert(g@.handlers =~= spec_routes().handlers);
    g
}

/// Browser-facing pages (root-level, not under `/api`): the same auth
/// logic as the API, with the token carried in a cookie.
pub fn web_routes() -> (g: RouteGroup)
    ensures
        g@ == spec_web_routes(),
{
    let g = RouteGroup::new()
        .add("/login", get(Action::WebLoginForm))
        .add("/login", post(Action::WebLoginSubmit))
        .add("/register", get(Action::WebRegisterForm))
        .add("/register", post(Action::WebRegisterSubmit))
        .add("/logout", post(Action::WebLogout))
        .add("/dashboard", get(Action::WebDashboard));
    assert(g@.handlers =~= spec_web_routes().handlers);
    g
}

/// No two API routes answer the same method on the same uri, so the
/// router can mount the group without a conflict.
pub proof fn lemma_routes_do_not_overlap()
    ensures
        spec_routes().no_overlap(),
{
    reveal_strlit("/register");
    reveal_strlit("/verify/{token}");
    reveal_strlit("/login");
    reveal_strlit("/forgot");
    reveal_strlit("/reset");
    reveal_strlit("/current");
    reveal_strlit("/magic-link");
    reveal_strlit("/magic-link/{token}");
    reveal_strlit("/resend-verification-mail");
    let h = spec_routes().handlers;
    assert(h[2].uri[1] != h[4].uri[1]);
    assert forall|i: int, j: int| 0 <= i < j < h.len() implies h[i].uri != h[j].uri by {
        if h[i].uri == h[j].uri {
            assert(h[i].uri.len() == h[j].uri.len());
            assert(h[i].uri[1] == h[j].uri[1]);
        }
    }
}

/// No two page routes answer the same method on the same uri: `/login` and
/// `/register` each have one `GET` (the form) and one `POST` (the submit).
pub proof fn lemma_web_routes_do_not_overlap()
    ensures
        spec_web_routes().no_overlap(),
{
    reveal_strlit("/login");
    reveal_strlit("/register");
    reveal_strlit("/logout");
    reveal_strlit("/dashboard");
    let h = spec_web_routes().handlers;
    assert forall|i: int, j: int| 0 <= i < j < h.len() && h[i].uri == h[j].uri implies
        h[i].endpoint.method != h[j].endpoint.method by {
        assert(h[i].uri.len() == h[j].uri.len());
    }
}

} // verus!
