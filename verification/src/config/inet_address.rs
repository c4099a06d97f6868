//! A network address: a host and a port.

use vstd::prelude::*;

verus! {

/// A host, by name or by number, and a port.
#[derive(Clone, Debug, PartialEq, Eq)]
pub struct InetAddress {
    pub host: String,
    pub port: u16,
}

/// The mathematical value of an [`InetAddress`].
pub struct AddressView {
    pub host: Seq<char>,
    pub port: u16,
}

impl View for InetAddress {
    type V = AddressView;

    open spec fn view(&self) -> AddressView {
        AddressView { host: self.host@, port: self.port }
    }
}

/// The values of the given addresses.
pub open spec fn address_views(addresses: Seq<InetAddress>) -> Seq<AddressView> {
    addresses.map_values(|a: InetAddress| a@)
}

impl InetAddress {
    /// Whether two addresses name the same host, letter for letter, and the
    /// same port.
    pub fn same_as(&self, other: &InetAddress) -> (same: bool)
        ensures
            same == (self@ == other@),
    {
        self.port == other.port && self.host == other.host
    }
}

} // verus!
