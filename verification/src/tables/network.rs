//! Network rows: interfaces, their addresses and their traffic counters.

use vstd::prelude::*;

verus! {

/// A network interface of a snapshot.
#[derive(Debug, PartialEq, Eq)]
pub struct Network {
    pub id_network: i32,
    pub system_information_id: i32,
    pub name: String,
}

pub struct NetworkView {
    pub id_network: i32,
    pub system_information_id: i32,
    pub name: Seq<char>,
}

impl View for Network {
    type V = NetworkView;

    open spec fn view(&self) -> NetworkView {
        NetworkView {
            id_network: self.id_network,
            system_information_id: self.system_information_id,
            name: self.name@,
        }
    }
}

impl Network {
    /// A row that is not stored yet: its key is 0.
    pub fn new(system_information_id: i32, name: &str) -> (r: Self)
        ensures
            r@ == (NetworkView {
                id_network: 0,
                system_information_id,
                name: name@,
            }),
    {
        Network {
            id_network: 0,
            system_information_id,
            name: name.to_owned(),
        }
    }

    /// The row as stored, under the key that the storage generated.
    pub fn with_id(self, id: i32) -> (r: Self)
        ensures
            r@ == (NetworkView { id_network: id, ..self@ }),
    {
        Network {
            id_network: id,
            system_information_id: self.system_information_id,
            name: self.name,
        }
    }
}

impl Clone for Network {
    fn clone(&self) -> (r: Self)
        ensures
            r@ == self@,
    {
        Network {
            id_network: self.id_network,
            system_information_id: self.system_information_id,
            name: self.name.clone(),
        }
    }
}

/// An address of an interface, with its netmask, both written out.
#[derive(Debug, PartialEq, Eq)]
pub struct NetworkAddress {
    pub id_network_address: i32,
    pub network_id: i32,
    pub address: String,
    pub netmask: String,
}

pub struct NetworkAddressView {
    pub id_network_address: i32,
    pub network_id: i32,
    pub address: Seq<char>,
    pub netmask: Seq<char>,
}

impl View for NetworkAddress {
    type V = NetworkAddressView;

    open spec fn view(&self) -> NetworkAddressView {
        NetworkAddressView {
            id_network_address: self.id_network_address,
            network_id: self.network_id,
            address: self.address@,
            netmask: self.netmask@,
        }
    }
}

impl NetworkAddress {
    /// A row that is not stored yet: its key is 0.
    pub fn new(network_id: i32, address: &str, netmask: &str) -> (r: Self)
        ensures
            r@ == (NetworkAddressView {
                id_network_address: 0,
                network_id,
                address: address@,
                netmask: netmask@,
            }),
    {
        NetworkAddress {
            id_network_address: 0,
            network_id,
            address: address.to_owned(),
            netmask: netmask.to_owned(),
        }
    }

    /// The row as stored, under the key that the storage generated.
    pub fn with_id(self, id: i32) -> (r: Self)
        ensures
            r@ == (NetworkAddressView { id_network_address: id, ..self@ }),
    {
        NetworkAddress {
            id_network_address: id,
            network_id: self.network_id,
            address: self.address,
            netmask: self.netmask,
        }
    }
}

impl Clone for NetworkAddress {
    fn clone(&self) -> (r: Self)
        ensures
            r@ == self@,
    {
        NetworkAddress {
            id_network_address: self.id_network_address,
            network_id: self.network_id,
            address: self.address.clone(),
            netmask: self.netmask.clone(),
        }
    }
}

/// Traffic counters of an interface at a snapshot.
#[derive(Clone, Copy, Debug, PartialEq, Eq, Structural)]
pub struct NetworkStatistic {
    pub id_network_statistics: i32,
    pub system_information_id: i32,
    pub network_id: i32,
    pub rx_bytes: i64,
    pub tx_bytes: i64,
    pub rx_packages: i64,
    pub tx_packages: i64,
    pub rx_errors: i64,
    pub tx_errors: i64,
}

impl NetworkStatistic {
    /// A row that is not stored yet: its key is 0.
    pub fn new(
        system_information_id: i32,
        network_id: i32,
        rx_bytes: i64,
        tx_bytes: i64,
        rx_packages: i64,
        tx_packages: i64,
        rx_errors: i64,
        tx_errors: i64,
    ) -> (r: Self)
        ensures
            r == (NetworkStatistic {
                id_network_statistics: 0,
                system_information_id,
                network_id,
                rx_bytes,
                tx_bytes,
                rx_packages,
                tx_packages,
                rx_errors,
                tx_errors,
            }),
    {
        NetworkStatistic {
            id_network_statistics: 0,
            system_information_id,
            network_id,
            rx_bytes,
            tx_bytes,
            rx_packages,
            tx_packages,
            rx_errors,
            tx_errors,
        }
    }

    /// The row as stored, under the key that the storage generated.
    pub fn with_id(self, id: i32) -> (r: Self)
        ensures
            r == (NetworkStatistic { id_network_statistics: id, ..self }),
    {
        NetworkStatistic {
            id_network_statistics: id,
            system_information_id: self.system_information_id,
            network_id: self.network_id,
            rx_bytes: self.rx_bytes,
            tx_bytes: self.tx_bytes,
            rx_packages: self.rx_packages,
            tx_packages: self.tx_packages,
            rx_errors: self.rx_errors,
            tx_errors: self.tx_errors,
        }
    }
}
} // verus!
