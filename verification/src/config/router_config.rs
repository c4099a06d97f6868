//! One gateway as the configuration declares it.

use super::backend::{backend_views, Backend, BackendView};
use super::host::{host_views, HostRule, HostRuleView};
use super::inet_address::{address_views, AddressView, InetAddress};
use super::location::{route_views, Route, RouteView};
use vstd::prelude::*;

verus! {

/// The declaration of one gateway: where it listens, which hosts it
/// serves, its routing rules in order of precedence, and its backends.
#[derive(Clone, Debug)]
pub struct RouterConfig {
    pub listen: Vec<InetAddress>,
    pub hosts: Vec<HostRule>,
    pub locations: Vec<Route>,
    pub backends: Vec<Backend>,
}

/// The mathematical value of a [`RouterConfig`].
pub struct RouterConfigView {
    pub listen: Seq<AddressView>,
    pub hosts: Seq<HostRuleView>,
    pub locations: Seq<RouteView>,
    pub backends: Seq<BackendView>,
}

impl View for RouterConfig {
    type V = RouterConfigView;

    open spec fn view(&self) -> RouterConfigView {
        RouterConfigView {
            listen: address_views(self.listen@),
            hosts: host_views(self.hosts@),
            locations: route_views(self.locations@),
            backends: backend_views(self.backends@),
        }
    }
}

/// The values of the given declarations.
pub open spec fn config_views(configs: Seq<RouterConfig>) -> Seq<RouterConfigView> {
    configs.map_values(|c: RouterConfig| c@)
}

} // verus!
