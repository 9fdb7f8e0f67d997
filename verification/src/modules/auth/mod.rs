pub mod requests;
pub mod routes;
pub mod web;

use vstd::prelude::*;
use crate::routing::{RouteGroup, RouteGroupView};
use super::Module;

verus! {

/// The authentication feature module.
pub struct AuthModule;

impl Module for AuthModule {
    open spec fn spec_routes(&self) -> Seq<RouteGroupView> {
        seq![routes::spec_routes(), routes::spec_web_routes()]
    }

    open spec fn spec_name(&self) -> Seq<char> {
        "auth"@
    }

    fn name(&self) -> (n: &'static str) {
        "auth"
    }

    fn routes(&self) -> (r: Vec<RouteGroup>) {
        let mut v: Vec<RouteGroup> = Vec::new();
        v.push(routes::routes());
        v.push(routes::web_routes());
        assert(v@.map_values(|g: RouteGroup| g@) =~= self.spec_routes());
        v
    }
}

} // verus!
