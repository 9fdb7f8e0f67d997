//! Self-registering feature modules: each owns its routes, and the
//! registry folds all of them into the application's route mounts.
pub mod auth;

use vstd::prelude::*;
use crate::controllers::home;
use crate::routing::{
    group_paths, mounted_paths, no_collisions, HttpMethod, RouteGroup, RouteGroupView,
    RouteMounts,
};

verus! {

/// A feature module: a name and the route groups it owns.
pub trait Module {
    /// The groups that `routes` returns.
    spec fn spec_routes(&self) -> Seq<RouteGroupView>;

    /// The name that `name` returns.
    spec fn spec_name(&self) -> Seq<char>;

    /// Bookkeeping/logging only today.
    fn name(&self) -> (n: &'static str)
        ensures
            n@ == self.spec_name();

    /// The module's route groups, in mounting order.
    fn routes(&self) -> (r: Vec<RouteGroup>)
        ensures
            r@.map_values(|g: RouteGroup| g@) == self.spec_routes();
}

/// The route groups of each registered module, in registration order.
pub open spec fn spec_registry() -> Seq<Seq<RouteGroupView>> {
    seq![auth::AuthModule.spec_routes()]
}

/// A module of the registry. Each feature module is one variant, so the
/// registry holds modules of different types in one list.
pub enum Registered {
    Auth(auth::AuthModule),
}

impl Module for Registered {
    open spec fn spec_routes(&self) -> Seq<RouteGroupView> {
        match self {
            Registered::Auth(m) => m.spec_routes(),
        }
    }

    open spec fn spec_name(&self) -> Seq<char> {
        match self {
            Registered::Auth(m) => m.spec_name(),
        }
    }

    fn name(&self) -> (n: &'static str) {
        match self {
            Registered::Auth(m) => m.name(),
        }
    }

    fn routes(&self) -> (r: Vec<RouteGroup>) {
        match self {
            Registered::Auth(m) => m.routes(),
        }
    }
}

/// Every registered feature module, in registration order.
fn registry() -> (r: Vec<Registered>)
    ensures
        r@.map_values(|m: Registered| m.spec_routes()) == spec_registry(),
{
    let mut v: Vec<Registered> = Vec::new();
    v.push(Registered::Auth(auth::AuthModule));
    assert(v@.map_values(|m: Registered| m.spec_routes()) =~= spec_registry());
    v
}

/// Mount every registered module's route groups after those already in
/// `routes`, module by module in registration order, each module's groups
/// in the order it lists them.
pub fn register_routes(routes: RouteMounts) -> (r: RouteMounts)
    ensures
        r@ == routes@ + spec_registry().flatten(),
{
    let modules = registry();
    let ghost specs = spec_registry();
    let ghost base = routes@;
    let mut routes = routes;
    let mut i: usize = 0;
    while i < modules.len()
        invariant
            0 <= i <= modules@.len(),
            modules@.map_values(|m: Registered| m.spec_routes()) == specs,
            routes@ == base + specs.take(i as int).flatten(),
        decreases modules@.len() - i,
    {
        let groups = modules[i].routes();
        assert(groups@.map_values(|g: RouteGroup| g@) == specs[i as int]);
        routes = routes.add_routes(groups);
        proof {
            assert(specs.take(i + 1) =~= specs.take(i as int).push(specs[i as int]));
            specs.take(i as int).lemma_flatten_push(specs[i as int]);
        }
        i = i + 1;
    }
    assert(specs.take(i as int) =~= specs);
    routes
}

/// Registering the modules mounts exactly the auth module's API group and
/// then its page group: both the JSON API and the browser pages are served.
pub proof fn lemma_registry_mounts_auth_groups()
    ensures
        spec_registry().flatten() == seq![auth::routes::spec_routes(), auth::routes::spec_web_routes()],
{
    spec_registry().lemma_flatten_singleton();
}

/// The routes that the framework mounts before any of the application's
/// (its default monitoring group, at the root): `GET /_readiness`,
/// `GET /_ping` and `GET /_health`.
pub open spec fn framework_default_paths() -> Seq<(HttpMethod, Seq<char>)> {
    seq![
        (HttpMethod::Get, "/_readiness"@),
        (HttpMethod::Get, "/_ping"@),
        (HttpMethod::Get, "/_health"@),
    ]
}

/// Mounting the framework's default routes, the home routes and then every
/// registered module's routes serves no method twice at one path, across all
/// groups once prefixes are joined: the monitoring routes, the landing and
/// demo pages, the JSON API under `/api/auth` and the root-level auth pages
/// never shadow one another.
pub proof fn lemma_app_routes_do_not_collide()
    ensures
        no_collisions(
            framework_default_paths() + mounted_paths(seq![home::spec_routes()] + spec_registry().flatten()),
        ),
{
    lemma_registry_mounts_auth_groups();
    let groups = seq![home::spec_routes()] + spec_registry().flatten();
    assert(groups =~= seq![home::spec_routes(), auth::routes::spec_routes(), auth::routes::spec_web_routes()]);
    let per = groups.map_values(|g: RouteGroupView| group_paths(g));
    assert(per =~= seq![
        group_paths(home::spec_routes()),
        group_paths(auth::routes::spec_routes()),
        group_paths(auth::routes::spec_web_routes()),
    ]);
    let e = Seq::<Seq<(HttpMethod, Seq<char>)>>::empty();
    assert(per =~= e.push(per[0]).push(per[1]).push(per[2]));
    e.lemma_flatten_push(per[0]);
    e.push(per[0]).lemma_flatten_push(per[1]);
    e.push(per[0]).push(per[1]).lemma_flatten_push(per[2]);
    assert(e.flatten() =~= Seq::<(HttpMethod, Seq<char>)>::empty());
    let api = "/api/auth"@;
    let all = seq![
        (HttpMethod::Get, "/_readiness"@),
        (HttpMethod::Get, "/_ping"@),
        (HttpMethod::Get, "/_health"@),
        (HttpMethod::Get, "/"@),
        (HttpMethod::Get, "/hello"@),
        (HttpMethod::Post, api + "/register"@),
        (HttpMethod::Get, api + "/verify/{token}"@),
        (HttpMethod::Post, api + "/login"@),
        (HttpMethod::Post, api + "/forgot"@),
        (HttpMethod::Post, api + "/reset"@),
        (HttpMethod::Get, api + "/current"@),
        (HttpMethod::Post, api + "/magic-link"@),
        (HttpMethod::Get, api + "/magic-link/{token}"@),
        (HttpMethod::Post, api + "/resend-verification-mail"@),
        (HttpMethod::Get, "/login"@),
        (HttpMethod::Post, "/login"@),
        (HttpMethod::Get, "/register"@),
        (HttpMethod::Post, "/register"@),
        (HttpMethod::Post, "/logout"@),
        (HttpMethod::Get, "/dashboard"@),
    ];
    assert(group_paths(home::spec_routes()) =~= all.subrange(3, 5));
    assert(group_paths(auth::routes::spec_routes()) =~= all.subrange(5, 14));
    assert(group_paths(auth::routes::spec_web_routes()) =~= all.subrange(14, 20));
    let paths = framework_default_paths() + mounted_paths(groups);
    assert(paths =~= all);
    reveal_strlit("/_readiness");
    reveal_strlit("/_ping");
    reveal_strlit("/_health");
    reveal_strlit("/");
    reveal_strlit("/hello");
    reveal_strlit("/api/auth");
    reveal_strlit("/register");
    reveal_strlit("/verify/{token}");
    reveal_strlit("/login");
    reveal_strlit("/forgot");
    reveal_strlit("/reset");
    reveal_strlit("/current");
    reveal_strlit("/magic-link");
    reveal_strlit("/magic-link/{token}");
    reveal_strlit("/resend-verification-mail");
    reveal_strlit("/logout");
    reveal_strlit("/dashboard");
    assert(all[4].1[1] != all[14].1[1]);
    assert(all[1].1[1] != all[14].1[1]);
    assert(all[1].1[1] != all[4].1[1]);
    assert(all[7].1[10] != all[9].1[10]);
    assert forall|i: int, j: int| 0 <= i < j < all.len() implies #[trigger] all[i] != #[trigger] all[j] by {
        if all[i] == all[j] {
            assert(all[i].1.len() == all[j].1.len());
            assert(all[i].1[1] == all[j].1[1]);
            assert(all[i].1[10] == all[j].1[10]);
        }
    }
}

} // verus!
