//! A named upstream.

use super::inet_address::{AddressView, InetAddress};
use vstd::prelude::*;

verus! {

/// A backend: the name that routing rules refer to it by, and the address
/// that requests for it are sent to.
#[derive(Clone, Debug)]
pub struct Backend {
    pub name: String,
    pub target: InetAddress,
}

/// The mathematical value of a [`Backend`].
pub struct BackendView {
    pub name: Seq<char>,
    pub target: AddressView,
}

impl View for Backend {
    type V = BackendView;

    open spec fn view(&self) -> BackendView {
        BackendView { name: self.name@, target: self.target@ }
    }
}

/// The values of the given backends.
pub open spec fn backend_views(backends: Seq<Backend>) -> Seq<BackendView> {
    backends.map_values(|b: Backend| b@)
}

} // verus!
