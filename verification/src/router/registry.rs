//! All gateways of a server, and the one decision made for every request:
//! which backend serves it.
//!
//! The registry is built once, before the first request, and only read
//! after that. Where two gateways listen on one address, the one declared
//! first serves it.

use super::gateway::{Gateway, GatewayView};
use crate::config::inet_address::{AddressView, InetAddress};
use crate::config::router_config::{config_views, RouterConfig, RouterConfigView};
use crate::error::{DakiaError, ErrorSource, ErrorType, ErrorView};
use crate::order::{first_index, lemma_first_index_found, lemma_first_index_none};
use vstd::prelude::*;

verus! {

/// The error for a request that came in on an address that no gateway
/// listens on. The gateway is at fault: its listeners and its registry
/// disagree.
pub open spec fn no_gateway() -> ErrorView {
    ErrorView {
        etype: ErrorType::InternalError,
        source: ErrorSource::Internal,
        cause: None,
        context: Some("no gateway for bind address"@),
    }
}

/// The property of an index that the declaration there is refused.
pub open spec fn refused(configs: Seq<RouterConfigView>) -> spec_fn(int) -> bool {
    |i: int| GatewayView::refusal(configs[i]) is Some
}

/// A registry as a mathematical value: its gateways, first declared first.
pub struct RegistryView {
    pub gateways: Seq<GatewayView>,
}

impl RegistryView {
    /// The property of an index that the gateway there listens on `bind`.
    pub open spec fn serving(self, bind: AddressView) -> spec_fn(int) -> bool {
        |i: int| self.gateways[i].listens_on(bind)
    }

    /// The index of the gateway that serves `bind`: the first that listens
    /// on it, if any does.
    pub open spec fn lookup(self, bind: AddressView) -> Option<int> {
        first_index(self.serving(bind), self.gateways.len() as int)
    }

    /// Where a request that came in on `bind` for `host` and `path` is
    /// sent, or why it is sent nowhere.
    pub open spec fn dispatch(self, bind: AddressView, host: Seq<char>, path: Seq<char>) -> Result<
        AddressView,
        ErrorView,
    > {
        match self.lookup(bind) {
            None => Err(no_gateway()),
            Some(i) => self.gateways[i].route(host, path),
        }
    }

    /// The registry that the declarations stand for.
    pub open spec fn of(configs: Seq<RouterConfigView>) -> RegistryView {
        RegistryView { gateways: configs.map_values(|c: RouterConfigView| GatewayView::of(c)) }
    }

    /// The error that the declarations are refused with, if they are: that
    /// of the first declaration that is refused.
    pub open spec fn refusal(configs: Seq<RouterConfigView>) -> Option<ErrorView> {
        match first_index(refused(configs), configs.len() as int) {
            Some(i) => GatewayView::refusal(configs[i]),
            None => None,
        }
    }

    /// Every gateway has the backends that its locations name, and rules
    /// that can all be used.
    pub open spec fn sound(self) -> bool {
        forall|i: int|
            0 <= i < self.gateways.len() ==> (#[trigger] self.gateways[i]).consistent()
                && self.gateways[i].table.valid()
    }
}

/// The values of the given gateways.
pub open spec fn gateway_views(gateways: Seq<Gateway>) -> Seq<GatewayView> {
    gateways.map_values(|g: Gateway| g@)
}

/// The gateways of a server.
pub struct GatewayRegistry {
    gateways: Vec<Gateway>,
}

impl View for GatewayRegistry {
    type V = RegistryView;

    closed spec fn view(&self) -> RegistryView {
        RegistryView { gateways: gateway_views(self.gateways@) }
    }
}

impl GatewayRegistry {
    /// A registry of gateways that are ready, in the given order.
    pub fn new(gateways: Vec<Gateway>) -> (registry: GatewayRegistry)
        ensures
            registry@.gateways == gateway_views(gateways@),
    {
        GatewayRegistry { gateways }
    }

    /// Builds the registry that the declarations stand for, or refuses
    /// them with the error of the first declaration that has a defect.
    pub fn build(configs: Vec<RouterConfig>) -> (r: Result<GatewayRegistry, Box<DakiaError>>)
        ensures
            match r {
                Ok(registry) => {
                    &&& RegistryView::refusal(config_views(configs@)) is None
                    &&& registry@ == RegistryView::of(config_views(configs@))
                    &&& registry@.sound()
                },
                Err(e) => RegistryView::refusal(config_views(configs@)) == Some(e@),
            },
    {
        let ghost views = config_views(configs@);
        let ghost wanted = RegistryView::of(views);
        let mut gateways: Vec<Gateway> = Vec::new();
        for config in it: configs.into_iter()
            invariant
                it.seq() == configs@,
                views == config_views(configs@),
                wanted == RegistryView::of(views),
                gateways.len() == it.index(),
                forall|k: int|
                    0 <= k < it.index() ==> (#[trigger] gateways[k])@ == wanted.gateways[k],
                forall|k: int|
                    0 <= k < it.index() ==> gateways[k]@.consistent()
                        && (#[trigger] gateways[k])@.table.valid(),
                forall|k: int| 0 <= k < it.index() ==> !#[trigger] refused(views)(k),
        {
            let ghost at = it.index() as int;
            match Gateway::build(config) {
                Ok(g) => {
                    gateways.push(g);
                },
                Err(e) => {
                    proof {
                        lemma_first_index_found(refused(views), views.len() as int, at);
                    }
                    return Err(e);
                },
            }
        }
        proof {
            lemma_first_index_none(refused(views), views.len() as int);
        }
        let registry = GatewayRegistry { gateways };
        assert(registry@.gateways =~= wanted.gateways);
        Ok(registry)
    }

    /// The number of gateways.
    pub fn len(&self) -> (n: usize)
        ensures
            n == self@.gateways.len(),
    {
        self.gateways.len()
    }

    /// The gateway that serves the address: the first that listens on it.
    pub fn lookup(&self, bind: &InetAddress) -> (found: Option<&Gateway>)
        ensures
            match found {
                Some(g) => self@.lookup(bind@) matches Some(i) && g@ == self@.gateways[i],
                None => self@.lookup(bind@) is None,
            },
    {
        let mut i: usize = 0;
        while i < self.gateways.len()
            invariant
                i <= self.gateways.len(),
                forall|k: int| 0 <= k < i ==> !#[trigger] self@.serving(bind@)(k),
            decreases self.gateways.len() - i,
        {
            let gateway = &self.gateways[i];
            if gateway.listens_on(bind) {
                proof {
                    lemma_first_index_found(
                        self@.serving(bind@),
                        self@.gateways.len() as int,
                        i as int,
                    );
                }
                return Some(gateway);
            }
            i = i + 1;
        }
        proof {
            lemma_first_index_none(self@.serving(bind@), self@.gateways.len() as int);
        }
        None
    }

    /// Decides one request: the address of the backend that serves a
    /// request for `host` and `path` that came in on `bind`, or the error to
    /// answer it with. Every error says who is at fault and why.
    pub fn dispatch(&self, bind: &InetAddress, host: &str, path: &str) -> (r: Result<
        &InetAddress,
        Box<DakiaError>,
    >)
        ensures
            match r {
                Ok(target) => self@.dispatch(bind@, host@, path@) == Ok::<AddressView, ErrorView>(
                    target@,
                ),
                Err(e) => self@.dispatch(bind@, host@, path@) == Err::<AddressView, ErrorView>(e@),
            },
    {
        match self.lookup(bind) {
            None => Err(
                DakiaError::create(
                    ErrorType::InternalError,
                    ErrorSource::Internal,
                    Some("no gateway for bind address".to_owned()),
                    None,
                ),
            ),
            Some(gateway) => gateway.route(host, path),
        }
    }
}

} // verus!
