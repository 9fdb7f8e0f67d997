use loco_laravel::controllers::home::{hello_view, index_view, routes, HomeView};
use loco_laravel::modules::auth;
use loco_laravel::routing::{Action, HttpMethod};

fn serves(group: &loco_laravel::routing::RouteGroup, uri: &str, method: HttpMethod, action: Action) -> bool {
    group
        .handlers
        .iter()
        .any(|h| h.uri == uri && h.endpoint.method == method && h.endpoint.action == action)
}

/// The home page route exists and the landing page can list the demo route
/// and the API endpoints.
#[test]
fn can_get_home_view() {
    let home = routes();
    assert!(serves(&home, "/", HttpMethod::Get, Action::HomeIndex));
    assert!(serves(&home, "/hello", HttpMethod::Get, Action::HomeHello));

    let view = index_view("loco_laravel", "0.1.0");
    assert_eq!(view.template(), "home/index.html");
    match view {
        HomeView::Index { app_name, app_version } => {
            assert_eq!(app_name, "loco_laravel");
            assert_eq!(app_version, "0.1.0");
        }
        HomeView::Hello => panic!("expected the landing page"),
    }

    let api = auth::routes::routes();
    assert_eq!(api.prefix.as_deref(), Some("/api/auth"));
    assert!(serves(&api, "/register", HttpMethod::Post, Action::ApiRegister));
}

/// The view-engine demo page is routed and rendered from its template.
#[test]
fn can_get_hello_view() {
    let home = routes();
    assert!(serves(&home, "/hello", HttpMethod::Get, Action::HomeHello));
    let view = hello_view();
    assert!(matches!(view, HomeView::Hello));
    assert_eq!(view.template(), "home/hello.html");
}

#[test]
fn home_routes_have_no_prefix_and_two_entries() {
    let home = routes();
    assert_eq!(home.prefix, None);
    assert_eq!(home.handlers.len(), 2);
    assert_eq!(home.handlers[0].uri, "/");
    assert_eq!(home.handlers[1].uri, "/hello");
}
