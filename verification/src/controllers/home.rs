//! The landing page and the view-engine demo page.
use vstd::prelude::*;
use crate::routing::{get, route, Action, HttpMethod, RouteGroup, RouteGroupView};

verus! {

/// A page of the home controller, with the values its template reads.
pub enum HomeView {
    /// `home/index.html`: the landing page, which shows the application's
    /// name and version.
    Index { app_name: String, app_version: String },
    /// `home/hello.html`: the i18n demo page, rendered with an empty context.
    Hello,
}

impl HomeView {
    /// The template that renders this page.
    pub fn template(&self) -> (t: &'static str)
        ensures
            self is Index ==> t@ == "home/index.html"@,
            self is Hello ==> t@ == "home/hello.html"@,
    {
        match self {
            HomeView::Index { .. } => "home/index.html",
            HomeView::Hello => "home/hello.html",
        }
    }
}

/// The landing page, for the application named `app_name` at `app_version`.
pub fn index_view(app_name: &str, app_version: &str) -> (v: HomeView)
    ensures
        v matches HomeView::Index { app_name: n, app_version: ver } && n@ == app_name@
            && ver@ == app_version@,
{
    HomeView::Index { app_name: app_name.to_owned(), app_version: app_version.to_owned() }
}

/// The view-engine demo page.
pub fn hello_view() -> (v: HomeView)
    ensures
        v is Hello,
{
    HomeView::Hello
}

/// The home controller's routes: `GET /` and `GET /hello`, with no prefix.
pub open spec fn spec_routes() -> RouteGroupView {
    RouteGroupView {
        prefix: None,
        handlers: seq![
            route("/"@, HttpMethod::Get, Action::HomeIndex),
            route("/hello"@, HttpMethod::Get, Action::HomeHello),
        ],
    }
}

/// The home controller's routes.
pub fn routes() -> (g: RouteGroup)
    ensures
        g@ == spec_routes(),
{
    let g = RouteGroup::new().add("/", get(Action::HomeIndex)).add("/hello", get(Action::HomeHello));
    assert(g@.handlers =~= spec_routes().handlers);
    g
}

} // verus!
