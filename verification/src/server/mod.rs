use vstd::prelude::*;
use crate::routing::Route;
use crate::server::route_builder::is_local_table;

pub mod config;
pub mod cors;
pub mod headers;
pub mod route_builder;
pub mod shutdown;
pub mod upstream;

verus! {

/// The route table of the gateway.
pub fn build_router() -> (r: Vec<Route>)
    ensures
        is_local_table(r@),
{
    route_builder::register_routes()
}

} // verus!
