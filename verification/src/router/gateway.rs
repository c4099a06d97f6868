//! One gateway: the addresses it listens on, the hosts and paths it
//! routes, and the backends it routes to.

use super::location_table::{LocationTable, TableView};
use crate::config::backend::{backend_views, Backend, BackendView};
use crate::config::inet_address::{address_views, AddressView, InetAddress};
use crate::config::location::RouteView;
use crate::config::router_config::{RouterConfig, RouterConfigView};
use crate::error::{DakiaError, ErrorSource, ErrorType, ErrorView};
use crate::order::{first_index, lemma_first_index_found, lemma_first_index_none};
use vstd::prelude::*;
use vstd::string::StringExecFns;

verus! {

/// The property of an index that the backend there has the given name.
pub open spec fn named(backends: Seq<BackendView>, name: Seq<char>) -> spec_fn(int) -> bool {
    |i: int| backends[i].name == name
}

/// The index of the backend that a name refers to: the first one declared
/// under that name, if any is.
pub open spec fn find_backend(backends: Seq<BackendView>, name: Seq<char>) -> Option<int> {
    first_index(named(backends, name), backends.len() as int)
}

/// The property of an index that the route there refers to a backend that
/// is not declared.
pub open spec fn dangling(routes: Seq<RouteView>, backends: Seq<BackendView>) -> spec_fn(
    int,
) -> bool {
    |i: int| find_backend(backends, routes[i].backend) is None
}

/// The error for a request whose host the gateway does not serve. The
/// client is at fault; the status is 403.
pub open spec fn host_not_allowed() -> ErrorView {
    ErrorView {
        etype: ErrorType::ProxyError(403),
        source: ErrorSource::Downstream,
        cause: None,
        context: Some("host not allowed"@),
    }
}

/// The error for a request that no location matches. The client is at
/// fault; the status is 404.
pub open spec fn no_route() -> ErrorView {
    ErrorView {
        etype: ErrorType::ProxyError(404),
        source: ErrorSource::Downstream,
        cause: None,
        context: Some("no route"@),
    }
}

/// The error for a location that won a request and names a backend that
/// the gateway does not have. The gateway is at fault.
pub open spec fn backend_missing(name: Seq<char>) -> ErrorView {
    ErrorView {
        etype: ErrorType::InternalError,
        source: ErrorSource::Internal,
        cause: None,
        context: Some("backend not found: "@ + name),
    }
}

/// The error that a declaration is refused with where a route refers to a
/// backend that is not declared.
pub open spec fn undeclared_backend(name: Seq<char>) -> ErrorView {
    ErrorView {
        etype: ErrorType::InternalError,
        source: ErrorSource::Internal,
        cause: None,
        context: Some("undeclared backend: "@ + name),
    }
}

/// A gateway as a mathematical value.
pub struct GatewayView {
    pub bind_addresses: Seq<AddressView>,
    pub table: TableView,
    pub backends: Seq<BackendView>,
}

impl GatewayView {
    /// Whether the gateway listens on the address.
    pub open spec fn listens_on(self, bind: AddressView) -> bool {
        exists|i: int| 0 <= i < self.bind_addresses.len() && #[trigger] self.bind_addresses[i] == bind
    }

    /// Every location refers to a backend that the gateway has.
    pub open spec fn consistent(self) -> bool {
        forall|i: int|
            0 <= i < self.table.locations.len() ==> find_backend(
                self.backends,
                (#[trigger] self.table.locations[i]).backend,
            ) is Some
    }

    /// Where a request for `host` and `path` is sent, or why it is sent
    /// nowhere.
    pub open spec fn route(self, host: Seq<char>, path: Seq<char>) -> Result<
        AddressView,
        ErrorView,
    > {
        if !self.table.host_allowed(host) {
            Err(host_not_allowed())
        } else {
            match self.table.resolve(host, path) {
                None => Err(no_route()),
                Some(name) => match find_backend(self.backends, name) {
                    None => Err(backend_missing(name)),
                    Some(i) => Ok(self.backends[i].target),
                },
            }
        }
    }

    /// The gateway that a declaration stands for.
    pub open spec fn of(config: RouterConfigView) -> GatewayView {
        GatewayView {
            bind_addresses: config.listen,
            table: TableView::of(config.hosts, config.locations),
            backends: config.backends,
        }
    }

    /// The error that a declaration is refused with, if it is refused: that
    /// of the first route that refers to an undeclared backend or, where
    /// there is none, that of the first rule that cannot be used.
    pub open spec fn refusal(config: RouterConfigView) -> Option<ErrorView> {
        match first_index(dangling(config.locations, config.backends), config.locations.len() as int) {
            Some(i) => Some(undeclared_backend(config.locations[i].backend)),
            None => TableView::of(config.hosts, config.locations).refusal(),
        }
    }
}

/// The backend that `name` refers to: the first one declared under that
/// name.
pub fn lookup_backend<'a>(backends: &'a Vec<Backend>, name: &str) -> (found: Option<&'a Backend>)
    ensures
        match found {
            Some(b) => find_backend(backend_views(backends@), name@) matches Some(i) && b@
                == backend_views(backends@)[i],
            None => find_backend(backend_views(backends@), name@) is None,
        },
{
    let ghost views = backend_views(backends@);
    let wanted = name.to_owned();
    let mut i: usize = 0;
    while i < backends.len()
        invariant
            i <= backends.len(),
            wanted@ == name@,
            views == backend_views(backends@),
            forall|k: int| 0 <= k < i ==> !#[trigger] named(views, name@)(k),
        decreases backends.len() - i,
    {
        let backend = &backends[i];
        if backend.name == wanted {
            proof {
                lemma_first_index_found(named(views, name@), views.len() as int, i as int);
            }
            return Some(backend);
        }
        i = i + 1;
    }
    proof {
        lemma_first_index_none(named(views, name@), views.len() as int);
    }
    None
}

fn error_with_name(etype: ErrorType, source: ErrorSource, prefix: &str, name: &str) -> (e: Box<
    DakiaError,
>)
    ensures
        e@ == (ErrorView { etype, source, cause: None, context: Some(prefix@ + name@) }),
{
    let mut context = prefix.to_owned();
    context.append(name);
    DakiaError::create(etype, source, Some(context), None)
}

/// A gateway, ready to route requests.
pub struct Gateway {
    bind_addresses: Vec<InetAddress>,
    table: LocationTable,
    backends: Vec<Backend>,
}

impl View for Gateway {
    type V = GatewayView;

    closed spec fn view(&self) -> GatewayView {
        GatewayView {
            bind_addresses: address_views(self.bind_addresses@),
            table: self.table@,
            backends: backend_views(self.backends@),
        }
    }
}

impl Gateway {
    /// Puts a gateway together from parts that are ready. Nothing is
    /// checked: a location may name a backend that is not among
    /// `backends`, and a request that it wins is then answered with an
    /// internal error.
    pub fn new(bind_addresses: Vec<InetAddress>, table: LocationTable, backends: Vec<Backend>) -> (g:
        Gateway)
        ensures
            g@ == (GatewayView {
                bind_addresses: address_views(bind_addresses@),
                table: table@,
                backends: backend_views(backends@),
            }),
    {
        Gateway { bind_addresses, table, backends }
    }

    /// Builds the gateway that a declaration stands for. The declaration is
    /// refused where a route refers to a backend that is not declared, or
    /// where a regex rule has a pattern that the engine does not take; so a
    /// gateway that was built has neither defect when the first request
    /// comes.
    pub fn build(config: RouterConfig) -> (r: Result<Gateway, Box<DakiaError>>)
        ensures
            match r {
                Ok(g) => {
                    &&& GatewayView::refusal(config@) is None
                    &&& g@ == GatewayView::of(config@)
                    &&& g@.consistent()
                    &&& g@.table.valid()
                },
                Err(e) => GatewayView::refusal(config@) == Some(e@),
            },
    {
        let ghost routes = config@.locations;
        let ghost backends = config@.backends;
        let mut i: usize = 0;
        while i < config.locations.len()
            invariant
                i <= config.locations.len(),
                routes == config@.locations,
                backends == config@.backends,
                forall|k: int| 0 <= k < i ==> !#[trigger] dangling(routes, backends)(k),
            decreases config.locations.len() - i,
        {
            let route = &config.locations[i];
            if lookup_backend(&config.backends, route.backend.as_str()).is_none() {
                proof {
                    lemma_first_index_found(
                        dangling(routes, backends),
                        routes.len() as int,
                        i as int,
                    );
                }
                return Err(
                    error_with_name(
                        ErrorType::InternalError,
                        ErrorSource::Internal,
                        "undeclared backend: ",
                        route.backend.as_str(),
                    ),
                );
            }
            i = i + 1;
        }
        proof {
            lemma_first_index_none(dangling(routes, backends), routes.len() as int);
        }
        match LocationTable::build(&config.hosts, &config.locations) {
            Err(e) => Err(e),
            Ok(table) => {
                let g = Gateway { bind_addresses: config.listen, table, backends: config.backends };
                assert(g@.consistent()) by {
                    assert forall|k: int| 0 <= k < g@.table.locations.len() implies find_backend(
                        g@.backends,
                        (#[trigger] g@.table.locations[k]).backend,
                    ) is Some by {
                        assert(!dangling(routes, backends)(k));
                    }
                }
                Ok(g)
            },
        }
    }

    /// Whether the gateway listens on the address.
    pub fn listens_on(&self, bind: &InetAddress) -> (listens: bool)
        ensures
            listens == self@.listens_on(bind@),
    {
        let mut i: usize = 0;
        while i < self.bind_addresses.len()
            invariant
                i <= self.bind_addresses.len(),
                forall|k: int| 0 <= k < i ==> #[trigger] self@.bind_addresses[k] != bind@,
            decreases self.bind_addresses.len() - i,
        {
            if self.bind_addresses[i].same_as(bind) {
                assert(self@.bind_addresses[i as int] == bind@);
                return true;
            }
            i = i + 1;
        }
        false
    }

    /// Whether the gateway serves the host.
    pub fn allows_host(&self, host: &str) -> (allowed: bool)
        ensures
            allowed == self@.table.host_allowed(host@),
    {
        self.table.allows_host(host)
    }

    /// The routing rules of the gateway.
    pub fn table(&self) -> (table: &LocationTable)
        ensures
            table@ == self@.table,
    {
        &self.table
    }

    /// The address that a request for `host` and `path` is sent to. A
    /// request for a host that the gateway does not serve, or one that no
    /// location matches, is the client's fault; a location that names a
    /// backend that the gateway does not have is the gateway's own.
    pub fn route(&self, host: &str, path: &str) -> (r: Result<&InetAddress, Box<DakiaError>>)
        ensures
            match r {
                Ok(target) => self@.route(host@, path@) == Ok::<AddressView, ErrorView>(target@),
                Err(e) => self@.route(host@, path@) == Err::<AddressView, ErrorView>(e@),
            },
    {
        if !self.table.allows_host(host) {
            return Err(
                DakiaError::create(
                    ErrorType::ProxyError(403),
                    ErrorSource::Downstream,
                    Some("host not allowed".to_owned()),
                    None,
                ),
            );
        }
        match self.table.resolve(host, path) {
            None => Err(
                DakiaError::create(
                    ErrorType::ProxyError(404),
                    ErrorSource::Downstream,
                    Some("no route".to_owned()),
                    None,
                ),
            ),
            Some(name) => match lookup_backend(&self.backends, name) {
                None => Err(
                    error_with_name(
                        ErrorType::InternalError,
                        ErrorSource::Internal,
                        "backend not found: ",
                        name,
                    ),
                ),
                Some(backend) => Ok(&backend.target),
            },
        }
    }
}

} // verus!
