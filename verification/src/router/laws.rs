//! What holds of every table, gateway and registry.

use super::gateway::{dangling, find_backend, host_not_allowed, named, no_route, GatewayView};
use super::location_table::{unusable, TableView};
use super::registry::{no_gateway, refused, RegistryView};
use crate::config::inet_address::AddressView;
use crate::config::location::PatternType;
use crate::config::router_config::RouterConfigView;
use crate::error::{ErrorSource, ErrorType};
use crate::order::{
    first_index, lemma_first_index_found, lemma_first_index_is_least, lemma_first_index_none,
};
use vstd::prelude::*;

verus! {

/// Resolving is a function of the table, the host and the path: tables
/// that hold the same rules in the same order send every request to the
/// same place.
pub proof fn lemma_resolve_deterministic(
    first: TableView,
    second: TableView,
    host: Seq<char>,
    path: Seq<char>,
)
    requires
        first.hosts == second.hosts,
        first.locations == second.locations,
    ensures
        first.resolve(host, path) == second.resolve(host, path),
{
}

/// A request resolves to the backend of a location exactly where that
/// location matches and none before it does; it resolves to nothing
/// exactly where no location matches.
pub proof fn lemma_resolve_is_first_match(table: TableView, host: Seq<char>, path: Seq<char>)
    ensures
        match table.first_match(host, path) {
            Some(i) => {
                &&& table.location_matches(i, host, path)
                &&& forall|j: int| 0 <= j < i ==> !table.location_matches(j, host, path)
                &&& table.resolve(host, path) == Some(table.locations[i].backend)
            },
            None => {
                &&& forall|j: int| !table.location_matches(j, host, path)
                &&& table.resolve(host, path) is None
            },
        },
{
    let holds = table.matching(host, path);
    let n = table.locations.len() as int;
    lemma_first_index_is_least(holds, n);
    match table.first_match(host, path) {
        Some(i) => {
            assert forall|j: int| 0 <= j < i implies !table.location_matches(j, host, path) by {
                assert(!holds(j));
            }
        },
        None => {
            assert forall|j: int| !table.location_matches(j, host, path) by {
                if 0 <= j < n {
                    assert(!holds(j));
                }
            }
        },
    }
}

/// Declaration order decides. Where two locations match a request, the
/// later one never wins it; and where the earlier one is the first of all
/// that match, the request goes to its backend.
pub proof fn lemma_first_declared_wins(
    table: TableView,
    earlier: int,
    later: int,
    host: Seq<char>,
    path: Seq<char>,
)
    requires
        earlier < later,
        table.location_matches(earlier, host, path),
        table.location_matches(later, host, path),
    ensures
        table.first_match(host, path) matches Some(winner) && winner <= earlier,
        table.first_match(host, path) != Some(later),
        (forall|j: int| 0 <= j < earlier ==> !table.location_matches(j, host, path))
            ==> table.resolve(host, path) == Some(table.locations[earlier].backend),
{
    let holds = table.matching(host, path);
    let n = table.locations.len() as int;
    lemma_first_index_is_least(holds, n);
    assert(holds(earlier));
    if forall|j: int| 0 <= j < earlier ==> !table.location_matches(j, host, path) {
        assert forall|j: int| 0 <= j < earlier implies !#[trigger] holds(j) by {
            assert(!table.location_matches(j, host, path));
        }
        lemma_first_index_found(holds, n, earlier);
    }
}

/// A table without locations resolves no request.
pub proof fn lemma_empty_table_resolves_nothing(table: TableView, host: Seq<char>, path: Seq<char>)
    requires
        table.locations.len() == 0,
    ensures
        table.resolve(host, path) is None,
{
    lemma_first_index_none(table.matching(host, path), 0);
}

/// A request for a host that the table does not allow resolves to nothing,
/// whatever its path.
pub proof fn lemma_host_gates_every_location(table: TableView, host: Seq<char>, path: Seq<char>)
    requires
        !table.host_allowed(host),
    ensures
        table.resolve(host, path) is None,
{
    lemma_first_index_none(table.matching(host, path), table.locations.len() as int);
}

/// A table is refused exactly where one of its rules cannot be used, and
/// then for an internal reason.
pub proof fn lemma_table_refusal(table: TableView)
    ensures
        table.refusal() is None <==> table.valid(),
        table.refusal() matches Some(e) ==> e.etype == ErrorType::InternalError && e.source
            == ErrorSource::Internal,
{
    let rules = table.rules();
    lemma_first_index_is_least(unusable(rules), rules.len() as int);
}

/// Every error that routing a request gives is classified: it is the
/// client's fault or the gateway's own, never of unknown origin, and it
/// says why.
pub proof fn lemma_route_errors_are_classified(
    gateway: GatewayView,
    host: Seq<char>,
    path: Seq<char>,
)
    ensures
        gateway.route(host, path) matches Err(e) ==> {
            &&& e.source == ErrorSource::Downstream || e.source == ErrorSource::Internal
            &&& e.context is Some
            &&& e.source == ErrorSource::Downstream <==> e == host_not_allowed() || e == no_route()
        },
{
}

/// A gateway that has the backends its locations name never fails a
/// request for want of a backend: a request is routed, or it is the
/// client's fault.
pub proof fn lemma_consistent_gateway_finds_its_backends(
    gateway: GatewayView,
    host: Seq<char>,
    path: Seq<char>,
)
    requires
        gateway.consistent(),
    ensures
        match gateway.route(host, path) {
            Ok(_) => true,
            Err(e) => e == host_not_allowed() || e == no_route(),
        },
{
    lemma_resolve_is_first_match(gateway.table, host, path);
    if let Some(i) = gateway.table.first_match(host, path) {
        assert(find_backend(gateway.backends, gateway.table.locations[i].backend) is Some);
    }
}

/// A declaration is accepted exactly where every route names a declared
/// backend and every rule can be used; a refusal is always for an internal
/// reason.
pub proof fn lemma_refusal(config: RouterConfigView)
    ensures
        GatewayView::refusal(config) is None <==> GatewayView::of(config).consistent()
            && GatewayView::of(config).table.valid(),
        GatewayView::refusal(config) matches Some(e) ==> e.etype == ErrorType::InternalError
            && e.source == ErrorSource::Internal,
{
    let gateway = GatewayView::of(config);
    let holds = dangling(config.locations, config.backends);
    let n = config.locations.len() as int;
    lemma_first_index_is_least(holds, n);
    lemma_table_refusal(gateway.table);
    match first_index(holds, n) {
        Some(i) => {
            assert(find_backend(gateway.backends, gateway.table.locations[i].backend) is None);
        },
        None => {
            assert forall|k: int| 0 <= k < gateway.table.locations.len() implies find_backend(
                gateway.backends,
                (#[trigger] gateway.table.locations[k]).backend,
            ) is Some by {
                assert(!holds(k));
            }
        },
    }
}

/// A declaration with a route that names a backend that is not declared
/// is refused.
pub proof fn lemma_undeclared_backend_is_refused(config: RouterConfigView, i: int)
    requires
        0 <= i < config.locations.len(),
        forall|k: int|
            0 <= k < config.backends.len() ==> (#[trigger] config.backends[k]).name
                != config.locations[i].backend,
    ensures
        GatewayView::refusal(config) is Some,
{
    let name = config.locations[i].backend;
    lemma_first_index_is_least(named(config.backends, name), config.backends.len() as int);
    if let Some(k) = find_backend(config.backends, name) {
        assert(named(config.backends, name)(k));
    }
    let holds = dangling(config.locations, config.backends);
    assert(holds(i));
    lemma_first_index_is_least(holds, config.locations.len() as int);
}

/// A declaration with a regex rule that cannot be used, for a host or for
/// a path, is refused.
pub proof fn lemma_invalid_pattern_is_refused(config: RouterConfigView, i: int)
    requires
        0 <= i < GatewayView::of(config).table.rules().len(),
        !GatewayView::of(config).table.rules()[i].valid(),
    ensures
        GatewayView::of(config).table.rules()[i].kind == PatternType::Regex,
        GatewayView::refusal(config) is Some,
{
    let table = GatewayView::of(config).table;
    assert(unusable(table.rules())(i));
    lemma_refusal(config);
}

/// Every error that dispatching a request gives is classified: it is the
/// client's fault or the gateway's own, never of unknown origin, and it
/// says why.
pub proof fn lemma_dispatch_errors_are_classified(
    registry: RegistryView,
    bind: AddressView,
    host: Seq<char>,
    path: Seq<char>,
)
    ensures
        registry.dispatch(bind, host, path) matches Err(e) ==> {
            &&& e.source == ErrorSource::Downstream || e.source == ErrorSource::Internal
            &&& e.context is Some
            &&& e.source == ErrorSource::Downstream <==> e == host_not_allowed() || e == no_route()
        },
{
    if let Some(i) = registry.lookup(bind) {
        lemma_route_errors_are_classified(registry.gateways[i], host, path);
    }
}

/// In a registry whose gateways all have the backends that their locations
/// name, a request is dispatched, or it is the client's fault, or it came
/// in on an address that no gateway listens on.
pub proof fn lemma_sound_registry_dispatches(
    registry: RegistryView,
    bind: AddressView,
    host: Seq<char>,
    path: Seq<char>,
)
    requires
        registry.sound(),
    ensures
        match registry.dispatch(bind, host, path) {
            Ok(_) => true,
            Err(e) => e == host_not_allowed() || e == no_route() || (e == no_gateway() && forall|
                i: int,
            |
                0 <= i < registry.gateways.len() ==> !(#[trigger] registry.gateways[i]).listens_on(
                    bind,
                )),
        },
{
    let holds = registry.serving(bind);
    lemma_first_index_is_least(holds, registry.gateways.len() as int);
    match registry.lookup(bind) {
        Some(i) => {
            lemma_consistent_gateway_finds_its_backends(registry.gateways[i], host, path);
        },
        None => {
            assert forall|i: int| 0 <= i < registry.gateways.len() implies !(
            #[trigger] registry.gateways[i]).listens_on(bind) by {
                assert(!holds(i));
            }
        },
    }
}

/// The declarations of a server are accepted exactly where each of them
/// is.
pub proof fn lemma_registry_refusal(configs: Seq<RouterConfigView>)
    ensures
        RegistryView::refusal(configs) is None <==> forall|i: int|
            0 <= i < configs.len() ==> GatewayView::refusal(#[trigger] configs[i]) is None,
        RegistryView::refusal(configs) is None ==> RegistryView::of(configs).sound(),
{
    let holds = refused(configs);
    lemma_first_index_is_least(holds, configs.len() as int);
    match first_index(holds, configs.len() as int) {
        Some(i) => {
            assert(holds(i));
        },
        None => {
            assert forall|i: int| 0 <= i < configs.len() implies GatewayView::refusal(
                #[trigger] configs[i],
            ) is None by {
                assert(!holds(i));
            }
            let registry = RegistryView::of(configs);
            assert forall|i: int| 0 <= i < registry.gateways.len() implies (
            #[trigger] registry.gateways[i]).consistent() && registry.gateways[i].table.valid() by {
                lemma_refusal(configs[i]);
            }
        },
    }
}

} // verus!
