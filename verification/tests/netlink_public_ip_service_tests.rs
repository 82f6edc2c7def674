use dyndnsd::ipv4::Ipv4Addr;
use dyndnsd::netlink_public_ip_service::{
    find_ip, first_ipv4, IpNetwork, NetlinkPublicIpService, NetworkInterface,
};
use dyndnsd::public_ip_service::{PublicIpService, PublicIpServiceError};

fn v4(a: u8, b: u8, c: u8, d: u8) -> IpNetwork {
    IpNetwork::V4 { address: Ipv4Addr::new(a, b, c, d), prefix: 24 }
}

fn interface(name: &str, ips: Vec<IpNetwork>) -> NetworkInterface {
    NetworkInterface { name: name.to_string(), ips }
}

#[test]
fn finds_the_first_ipv4_address_of_the_named_interface() {
    let interfaces = vec![
        interface("lo", vec![v4(127, 0, 0, 1), IpNetwork::V6]),
        interface("eth0", vec![IpNetwork::V6, v4(203, 0, 113, 5), v4(203, 0, 113, 6)]),
        interface("eth1", vec![v4(10, 0, 0, 1)]),
    ];
    assert_eq!(find_ip(&interfaces, "eth0"), Ok(Ipv4Addr::new(203, 0, 113, 5)));
    assert_eq!(find_ip(&interfaces, "lo"), Ok(Ipv4Addr::new(127, 0, 0, 1)));
    assert_eq!(find_ip(&interfaces, "eth1"), Ok(Ipv4Addr::new(10, 0, 0, 1)));
}

#[test]
fn missing_interface_or_address_is_not_found() {
    let interfaces = vec![
        interface("eth0", vec![IpNetwork::V6, IpNetwork::V6]),
        interface("eth1", vec![]),
        interface("eth0", vec![v4(10, 0, 0, 1)]),
    ];
    assert_eq!(find_ip(&interfaces, "wan"), Err(PublicIpServiceError::NotFound));
    assert_eq!(find_ip(&interfaces, "eth1"), Err(PublicIpServiceError::NotFound));
    assert_eq!(find_ip(&interfaces, "eth0"), Err(PublicIpServiceError::NotFound));
    assert_eq!(find_ip(&interfaces, "ETH0"), Err(PublicIpServiceError::NotFound));
    assert_eq!(find_ip(&vec![], "eth0"), Err(PublicIpServiceError::NotFound));
}

#[test]
fn first_ipv4_skips_other_families() {
    assert_eq!(first_ipv4(&vec![]), None);
    assert_eq!(first_ipv4(&vec![IpNetwork::V6]), None);
    assert_eq!(
        first_ipv4(&vec![IpNetwork::V6, v4(1, 2, 3, 4), v4(5, 6, 7, 8)]),
        Some(Ipv4Addr::new(1, 2, 3, 4))
    );
}

#[test]
fn service_remembers_its_interface() {
    let service = NetlinkPublicIpService::new("eth0");
    assert_eq!(service.interface(), "eth0");
}

#[test]
fn interface_that_does_not_exist_is_not_found() {
    let service = NetlinkPublicIpService::new("no-such-interface-0123456789");
    assert_eq!(service.get_ip(), Err(PublicIpServiceError::NotFound));
}

#[test]
fn loopback_holds_the_loopback_address_where_it_exists() {
    let service = NetlinkPublicIpService::new("lo");
    match service.get_ip() {
        Ok(address) => assert_eq!(address.a, 127),
        Err(error) => assert_eq!(error, PublicIpServiceError::NotFound),
    }
}
