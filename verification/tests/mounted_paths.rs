use loco_laravel::controllers::home;
use loco_laravel::modules::register_routes;
use loco_laravel::routing::{HttpMethod, RouteGroup, RouteMounts};
use loco_rs::controller::AppRoutes;
use loco_rs::prelude::{get, post, Routes};

fn to_framework(group: &RouteGroup) -> Routes {
    let mut routes = Routes::new();
    if let Some(p) = &group.prefix {
        routes = routes.prefix(p);
    }
    for h in &group.handlers {
        routes = match h.endpoint.method {
            HttpMethod::Get => routes.add(&h.uri, get(|| async { "ok" })),
            HttpMethod::Post => routes.add(&h.uri, post(|| async { "ok" })),
        };
    }
    routes
}

fn app_groups() -> Vec<RouteGroup> {
    let mounts = RouteMounts::empty().add_route(home::routes());
    register_routes(mounts).groups
}

#[test]
fn mounted_paths_are_prefix_then_uri_and_never_collide() {
    let groups = app_groups();
    let mut app = AppRoutes::empty();
    let mut expected: Vec<(String, String)> = Vec::new();
    for g in &groups {
        app = app.add_route(to_framework(g));
        for h in &g.handlers {
            let method = match h.endpoint.method {
                HttpMethod::Get => "GET",
                HttpMethod::Post => "POST",
            };
            let path = format!("{}{}", g.prefix.clone().unwrap_or_default(), h.uri);
            expected.push((method.to_string(), path));
        }
    }
    let listed: Vec<(String, String)> = app
        .collect()
        .iter()
        .map(|r| (r.actions.iter().map(|m| m.to_string()).collect::<Vec<_>>().join(","), r.uri.clone()))
        .collect();
    assert_eq!(listed, expected);
    assert_eq!(listed.len(), 17);
    assert!(listed.contains(&("POST".to_string(), "/api/auth/register".to_string())));
    assert!(listed.contains(&("GET".to_string(), "/dashboard".to_string())));
    for i in 0..listed.len() {
        for j in (i + 1)..listed.len() {
            assert_ne!(listed[i], listed[j]);
        }
    }
}
