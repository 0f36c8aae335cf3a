//! The dashboard's view of one network interface, derived from the live
//! port status of the device network topic.

use vstd::prelude::*;

use crate::eve_types::NetworkPortStatus;
use crate::net::IpAddress;

verus! {

/// What the network page shows of one interface.
#[derive(Clone, Debug, PartialEq, Eq)]
pub struct NetworkInterface {
    pub name: String,
    pub is_mngmt: bool,
    pub addresses: Vec<IpAddress>,
    pub default_gateway: Option<Vec<IpAddress>>,
}

/// Errors of the interface listing.
#[derive(Clone, Copy, Debug, PartialEq, Eq, Structural)]
pub enum IoError {
    NetworkListError,
}

/// The addresses of a port: one per assigned-address entry, in order; an
/// absent list yields no addresses.
pub open spec fn port_addresses(port: NetworkPortStatus) -> Seq<IpAddress> {
    match port.addr_info_list {
        Some(list) => list@.map_values(|a: crate::eve_types::AddrInfo| a.addr),
        None => Seq::<IpAddress>::empty(),
    }
}

/// `r` is the interface entry derived from `port`: its name, the
/// management flag, every assigned address in order, and the default
/// routers.
pub open spec fn is_interface_of(r: NetworkInterface, port: NetworkPortStatus) -> bool {
    &&& r.name == port.if_name
    &&& r.is_mngmt == port.is_mgmt
    &&& r.addresses@ == port_addresses(port)
    &&& r.default_gateway == port.default_routers
}

impl NetworkInterface {
    /// Derive the interface entry from one port's status: its name, the
    /// management flag, every assigned address and the default routers.
    pub fn from_port(port: NetworkPortStatus) -> (r: NetworkInterface)
        ensures
            is_interface_of(r, port),
    {
        let mut addresses: Vec<IpAddress> = Vec::new();
        match &port.addr_info_list {
            Some(list) => {
                let mut i: usize = 0;
                while i < list.len()
                    invariant
                        i <= list@.len(),
                        addresses@ =~= list@.subrange(0, i as int).map_values(
                            |a: crate::eve_types::AddrInfo| a.addr,
                        ),
                    decreases list@.len() - i,
                {
                    addresses.push(list[i].addr);
                    proof {
                        assert(list@.subrange(0, i + 1).drop_last() =~= list@.subrange(
                            0,
                            i as int,
                        ));
                        assert(list@.subrange(0, i + 1).map_values(
                            |a: crate::eve_types::AddrInfo| a.addr,
                        ) =~= list@.subrange(0, i as int).map_values(
                            |a: crate::eve_types::AddrInfo| a.addr,
                        ).push(list@[i as int].addr));
                    }
                    i += 1;
                }
                proof {
                    assert(list@.subrange(0, list@.len() as int) =~= list@);
                }
            },
            None => {},
        }
        NetworkInterface {
            name: port.if_name,
            is_mngmt: port.is_mgmt,
            addresses,
            default_gateway: port.default_routers,
        }
    }
}

} // verus!
