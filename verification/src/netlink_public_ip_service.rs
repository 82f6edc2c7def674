//! The public address as the local network stack knows it: the first IPv4
//! address of a named interface. Fit for a host that holds its public address
//! itself.

use crate::http::result_view;
use crate::ipv4::Ipv4Addr;
use crate::public_ip_service::{PublicIpService, PublicIpServiceError, PublicIpServiceErrorView};
use vstd::prelude::*;

verus! {

/// One address of an interface with its prefix length. Of an IPv6 address
/// only its being one is kept.
#[derive(Clone, Copy, Debug, PartialEq, Eq, Structural)]
pub enum IpNetwork {
    V4 { address: Ipv4Addr, prefix: u8 },
    V6,
}

/// A network interface: its name and its addresses in the order in which the
/// system lists them.
#[derive(Clone, Debug, PartialEq, Eq)]
pub struct NetworkInterface {
    pub name: String,
    pub ips: Vec<IpNetwork>,
}

/// The mathematical model of a [`NetworkInterface`].
pub struct NetworkInterfaceView {
    pub name: Seq<char>,
    pub ips: Seq<IpNetwork>,
}

impl View for NetworkInterface {
    type V = NetworkInterfaceView;

    open spec fn view(&self) -> NetworkInterfaceView {
        NetworkInterfaceView { name: self.name@, ips: self.ips@ }
    }
}

impl DeepView for NetworkInterface {
    type V = NetworkInterfaceView;

    open spec fn deep_view(&self) -> NetworkInterfaceView {
        self@
    }
}

/// The first IPv4 address at or after `from` among `ips`.
pub open spec fn first_v4(ips: Seq<IpNetwork>, from: int) -> Option<Ipv4Addr>
    decreases ips.len() - from,
{
    if from < 0 || from >= ips.len() {
        None
    } else {
        match ips[from] {
            IpNetwork::V4 { address, .. } => Some(address),
            IpNetwork::V6 => first_v4(ips, from + 1),
        }
    }
}

/// The first interface at or after `from` whose name is `name`.
pub open spec fn interface_named(
    interfaces: Seq<NetworkInterfaceView>,
    name: Seq<char>,
    from: int,
) -> Option<NetworkInterfaceView>
    decreases interfaces.len() - from,
{
    if from < 0 || from >= interfaces.len() {
        None
    } else if interfaces[from].name == name {
        Some(interfaces[from])
    } else {
        interface_named(interfaces, name, from + 1)
    }
}

/// The public address among `interfaces`: the first IPv4 address of the first
/// interface named `name`. There is none where no interface has that name or
/// where that interface has no IPv4 address.
pub open spec fn address_on(interfaces: Seq<NetworkInterfaceView>, name: Seq<char>) -> Result<
    Ipv4Addr,
    PublicIpServiceErrorView,
> {
    match interface_named(interfaces, name, 0) {
        Some(interface) => match first_v4(interface.ips, 0) {
            Some(address) => Ok(address),
            None => Err(PublicIpServiceErrorView::NotFound),
        },
        None => Err(PublicIpServiceErrorView::NotFound),
    }
}

/// `pnet::datalink::interfaces`: the interfaces of this machine as the system
/// lists them now, each with its name and addresses. What comes back depends
/// on the machine, so nothing is claimed of it.
#[verifier::external_body]
fn system_interfaces() -> Vec<NetworkInterface> {
    pnet::datalink::interfaces().into_iter().map(|interface| NetworkInterface {
        name: interface.name,
        ips: interface.ips.into_iter().map(|network| match network {
            pnet::ipnetwork::IpNetwork::V4(v4) => IpNetwork::V4 {
                address: Ipv4Addr::from_octets(v4.ip().octets()),
                prefix: v4.prefix(),
            },
            pnet::ipnetwork::IpNetwork::V6(_) => IpNetwork::V6,
        }).collect(),
    }).collect()
}

/// The first IPv4 address among the addresses of an interface.
pub fn first_ipv4(ips: &Vec<IpNetwork>) -> (found: Option<Ipv4Addr>)
    ensures
        found == first_v4(ips@, 0),
{
    let mut i: usize = 0;
    while i < ips.len()
        invariant
            i <= ips.len(),
            first_v4(ips@, 0) == first_v4(ips@, i as int),
        decreases ips.len() - i,
    {
        match ips[i] {
            IpNetwork::V4 { address, .. } => {
                return Some(address);
            },
            IpNetwork::V6 => {},
        }
        i += 1;
    }
    None
}

/// The public address among `interfaces`: the first IPv4 address of the first
/// interface named `name`.
pub fn find_ip(interfaces: &Vec<NetworkInterface>, name: &str) -> (found: Result<
    Ipv4Addr,
    PublicIpServiceError,
>)
    ensures
        result_view(found) == address_on(interfaces.deep_view(), name@),
{
    let wanted = name.to_owned();
    let mut i: usize = 0;
    while i < interfaces.len()
        invariant
            i <= interfaces.len(),
            wanted@ == name@,
            interface_named(interfaces.deep_view(), name@, 0) == interface_named(
                interfaces.deep_view(),
                name@,
                i as int,
            ),
        decreases interfaces.len() - i,
    {
        assert(interfaces.deep_view()[i as int] == interfaces@[i as int]@);
        if interfaces[i].name == wanted {
            return match first_ipv4(&interfaces[i].ips) {
                Some(address) => Ok(address),
                None => Err(PublicIpServiceError::NotFound),
            };
        }
        i += 1;
    }
    Err(PublicIpServiceError::NotFound)
}

/// The source of the public address that reads it off a local interface.
#[derive(Clone, Debug, PartialEq, Eq)]
pub struct NetlinkPublicIpService {
    interface: String,
}

impl View for NetlinkPublicIpService {
    type V = Seq<char>;

    closed spec fn view(&self) -> Seq<char> {
        self.interface@
    }
}

impl NetlinkPublicIpService {
    /// The source that reads the interface named `interface`.
    pub fn new(interface: &str) -> (service: NetlinkPublicIpService)
        ensures
            service@ == interface@,
    {
        NetlinkPublicIpService { interface: interface.to_owned() }
    }

    /// The name of the interface that is read.
    pub fn interface(&self) -> (name: &str)
        ensures
            name@ == self@,
    {
        self.interface.as_str()
    }
}

impl PublicIpService for NetlinkPublicIpService {
    /// An answer of this source is what [`address_on`] gives for the
    /// interface, on some list of interfaces: the one that the system gave.
    open spec fn observes(&self, outcome: Result<Ipv4Addr, PublicIpServiceErrorView>) -> bool {
        exists|interfaces: Seq<NetworkInterfaceView>|
            outcome == #[trigger] address_on(interfaces, self@)
    }

    /// The first IPv4 address of the interface, as the system lists it now.
    /// Whatever the system lists, the answer is that of [`find_ip`] on it.
    fn get_ip(&self) -> (found: Result<Ipv4Addr, PublicIpServiceError>) {
        let interfaces = system_interfaces();
        let found = find_ip(&interfaces, self.interface.as_str());
        assert(result_view(found) == address_on(interfaces.deep_view(), self@));
        found
    }
}

} // verus!
