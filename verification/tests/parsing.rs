use monitor_core::codec::{mac_from_base64, mac_from_bytes, parse_node_uuid, MacAddr, MacParseError, UuidParseError};
use monitor_core::eve_types::{
    DhcpConfig, DhcpType, DPCState, DevicePortConfig, DevicePortConfigList, L2LinkConfig,
    L2LinkType, NetworkPortConfig, NetworkPortStatus, NetworkType, ProxyConfig, TestResults,
    WirelessConfig, WirelessStatus, WirelessType, WwanAuthProtocol, WwanCellModule,
    WwanIPSettings, WwanNetworkStatus, WwanPhysAddrs, WwanProvider,
};
use monitor_core::net::{
    count_ones_u8, mask_bit_count, mask_bytes_of_prefix, subnet_from_parts, IpAddress, IpNetwork,
};
use monitor_core::network::NetworkInterface;
use monitor_core::text::{split_and_trim, str_contains, str_eq, trim_str};
use monitor_core::time::Timestamp;

fn zero_time() -> Timestamp {
    Timestamp { secs: 0, nanos: 0 }
}

fn proxy_config() -> ProxyConfig {
    ProxyConfig {
        proxies: None,
        exceptions: String::new(),
        pacfile: String::new(),
        network_proxy_enable: false,
        network_proxy_url: String::new(),
        wpad_url: String::new(),
        proxy_cert_pem: None,
    }
}

fn l2_link_config() -> L2LinkConfig {
    L2LinkConfig { l2_type: L2LinkType::L2LinkTypeNone, vlan: None, bond: None }
}

fn wireless_config() -> WirelessConfig {
    WirelessConfig { w_type: WirelessType::Unused, cellular_v2: None, wifi: None, cellular: None }
}

fn wireless_status() -> WirelessStatus {
    WirelessStatus {
        w_type: WirelessType::Unused,
        cellular: WwanNetworkStatus {
            logical_label: String::new(),
            phys_addrs: WwanPhysAddrs {},
            module: WwanCellModule {},
            sim_cards: None,
            config_error: String::new(),
            probe_error: String::new(),
            current_provider: WwanProvider {},
            visible_providers: None,
            current_rats: None,
            connected_at: 0,
            ip_settings: WwanIPSettings { address: None, gateway: None, dns_servers: None, mtu: 0 },
            location_tracking: false,
        },
    }
}

fn test_results(error: &str) -> TestResults {
    TestResults {
        last_failed: zero_time(),
        last_succeeded: zero_time(),
        last_error: error.to_string(),
    }
}

/// The port status the device reports for `eth1` in a field capture.
fn get_network_port_status() -> NetworkPortStatus {
    let subnet = subnet_from_parts(
        Some(IpAddress::V4([192, 168, 2, 0])),
        Some(vec![0xff, 0xff, 0xff, 0x00]),
    )
    .expect("a /24 subnet");
    let mac = match mac_from_base64(Some("UlQAEjRX")).expect("a valid hardware address") {
        Some(mac) => mac,
        None => panic!("an address was encoded"),
    };
    NetworkPortStatus {
        if_name: "eth1".to_string(),
        phy_label: "eth1".to_string(),
        logical_label: "eth1".to_string(),
        alias: String::new(),
        is_mgmt: true,
        is_l3_port: true,
        cost: 0,
        dhcp: DhcpType::Client,
        network_type: NetworkType::NOOP,
        configured_subnet: Some(subnet),
        ipv4_subnet: None,
        ipv6_subnets: None,
        configured_ntp_servers: None,
        domain_name: String::new(),
        dns_servers: Some(vec![IpAddress::V4([192, 168, 2, 3])]),
        dhcp_ntp_servers: None,
        addr_info_list: Some(vec![
            monitor_core::eve_types::AddrInfo {
                addr: IpAddress::V4([192, 168, 2, 10]),
                geo: None,
                last_geo_timestamp: None,
            },
            monitor_core::eve_types::AddrInfo {
                addr: IpAddress::V6([
                    0xfe, 0xc0, 0, 0, 0, 0, 0, 0, 0x21, 0xb8, 0xb5, 0x79, 0x8b, 0x9c, 0x3c, 0xda,
                ]),
                geo: None,
                last_geo_timestamp: None,
            },
            monitor_core::eve_types::AddrInfo {
                addr: IpAddress::V6([
                    0xfe, 0x80, 0, 0, 0, 0, 0, 0, 0x6f, 0x27, 0x56, 0x60, 0xde, 0x21, 0xd5, 0x53,
                ]),
                geo: None,
                last_geo_timestamp: None,
            },
        ]),
        up: true,
        mac_addr: Some(mac),
        default_routers: Some(vec![
            IpAddress::V4([192, 168, 2, 2]),
            IpAddress::V6([0xfe, 0x80, 0, 0, 0, 0, 0, 0, 0, 0, 0, 0, 0, 0, 0, 0x02]),
        ]),
        mtu: 1500,
        wireless_cfg: wireless_config(),
        wireless_status: wireless_status(),
        proxy_config: proxy_config(),
        l2_link_config: l2_link_config(),
        test_results: test_results(
            "All attempts to connect to https://zedcloud.alpha.zededa.net/api/v2/edgedevice/ping failed: interface eth1: no DNS server available",
        ),
    }
}

#[test]
fn test_from() {
    let port = get_network_port_status();
    let network_interface = NetworkInterface::from_port(port);
    println!("{:?}", network_interface);
    assert_eq!(network_interface.name, "eth1");
}

#[test]
fn interface_keeps_addresses_and_routers() {
    let port = get_network_port_status();
    let iface = NetworkInterface::from_port(port);
    assert!(iface.is_mngmt);
    assert_eq!(iface.addresses.len(), 3);
    assert_eq!(iface.addresses[0], IpAddress::V4([192, 168, 2, 10]));
    assert_eq!(iface.default_gateway.as_ref().map(|g| g.len()), Some(2));
}

#[test]
fn mac_decodes_six_bytes() {
    let mac = mac_from_base64(Some("UlQAEjRX")).expect("valid").expect("present");
    assert_eq!(mac, MacAddr::Mac6([0x52, 0x54, 0x00, 0x12, 0x34, 0x57]));
}

#[test]
fn mac_decodes_eight_bytes() {
    // eight zero bytes
    let mac = mac_from_base64(Some("AAAAAAAAAAA=")).expect("valid").expect("present");
    assert_eq!(mac, MacAddr::Mac8([0; 8]));
}

#[test]
fn mac_rejects_bad_input() {
    assert_eq!(mac_from_base64(None), Ok(None));
    assert_eq!(mac_from_base64(Some("!!!")), Err(MacParseError::NotBase64));
    // four decoded bytes: neither six nor eight
    assert_eq!(mac_from_base64(Some("AAAAAA==")), Err(MacParseError::BadLength));
    assert_eq!(mac_from_bytes(&vec![1, 2, 3]), Err(MacParseError::BadLength));
}

#[test]
fn node_uuid_parsing() {
    assert_eq!(parse_node_uuid("00000000-0000-0000-0000-000000000000"), Ok(None));
    assert_eq!(
        parse_node_uuid("12345678-9abc-def0-1234-56789abcdef0"),
        Ok(Some(0x123456789abcdef0123456789abcdef0u128))
    );
    assert_eq!(parse_node_uuid("not-a-uuid"), Err(UuidParseError::NotAUuid));
}

#[test]
fn netmask_bit_counting() {
    assert_eq!(count_ones_u8(0xff), 8);
    assert_eq!(count_ones_u8(0xf0), 4);
    assert_eq!(count_ones_u8(0), 0);
    assert_eq!(mask_bit_count(&vec![0xff, 0xff, 0xff, 0x00]), Some(24));
    assert_eq!(mask_bit_count(&vec![0xff; 17]), None);
}

#[test]
fn subnet_from_wire_parts() {
    let net = subnet_from_parts(
        Some(IpAddress::V4([192, 168, 2, 0])),
        Some(vec![0xff, 0xff, 0xff, 0x00]),
    );
    assert_eq!(
        net,
        Some(IpNetwork { addr: IpAddress::V4([192, 168, 2, 0]), prefix_len: 24 })
    );
    // 33 set bits do not fit a v4 prefix
    let too_long = subnet_from_parts(
        Some(IpAddress::V4([10, 0, 0, 0])),
        Some(vec![0xff, 0xff, 0xff, 0xff, 0x80]),
    );
    assert_eq!(too_long, None);
    assert_eq!(subnet_from_parts(None, Some(vec![0xff])), None);
    assert_eq!(subnet_from_parts(Some(IpAddress::V4([1, 2, 3, 4])), None), None);
}

#[test]
fn netmask_bytes_from_prefix() {
    let mask = mask_bytes_of_prefix(20);
    assert_eq!(mask.len(), 16);
    assert_eq!(&mask[..4], &[0xff, 0xff, 0xf0, 0x00]);
    assert!(mask[4..].iter().all(|b| *b == 0));
    // the round trip recovers the prefix
    assert_eq!(mask_bit_count(&mask), Some(20));
}

#[test]
fn auth_protocol_wire_names() {
    assert_eq!(WwanAuthProtocol::parse(""), Some(WwanAuthProtocol::NoAuth));
    assert_eq!(WwanAuthProtocol::parse("pap"), Some(WwanAuthProtocol::Pap));
    assert_eq!(WwanAuthProtocol::parse("chap"), Some(WwanAuthProtocol::Chap));
    assert_eq!(WwanAuthProtocol::parse("pap-and-chap"), Some(WwanAuthProtocol::PapChap));
    assert_eq!(WwanAuthProtocol::parse("eap"), None);
    for p in [
        WwanAuthProtocol::NoAuth,
        WwanAuthProtocol::Pap,
        WwanAuthProtocol::Chap,
        WwanAuthProtocol::PapChap,
    ] {
        assert_eq!(WwanAuthProtocol::parse(&p.wire_name()), Some(p));
    }
}

#[test]
fn text_helpers() {
    assert!(str_eq("abc", "abc"));
    assert!(!str_eq("abc", "abd"));
    assert!(!str_eq("abc", "ab"));
    assert!(str_contains("Vault key unavailable on boot", "Vault key unavailable"));
    assert!(!str_contains("all good", "Vault key unavailable"));
    assert!(str_contains("anything", ""));
    assert_eq!(trim_str("  padded\t"), "padded".to_string());
    assert_eq!(trim_str("\r\n"), String::new());
    assert_eq!(
        split_and_trim("a: b :c", ':'),
        vec!["a".to_string(), "b".to_string(), "c".to_string()]
    );
    assert_eq!(split_and_trim("plain", ':'), vec!["plain".to_string()]);
}

fn port_config(name: &str, dhcp: DhcpType) -> NetworkPortConfig {
    NetworkPortConfig {
        if_name: name.to_string(),
        usb_addr: String::new(),
        pci_addr: String::new(),
        phy_label: name.to_string(),
        logical_label: name.to_string(),
        shared_labels: None,
        alias: String::new(),
        network_uuid: 0,
        is_mgmt: true,
        is_l3_port: true,
        invalid_config: false,
        cost: 0,
        mtu: 1500,
        dhcp_config: DhcpConfig {
            dhcp,
            addr_subnet: None,
            gateway: String::new(),
            domain_name: String::new(),
            ntp_servers: None,
            dns_servers: None,
            dhcp_type: NetworkType::IPv4,
        },
        proxy_config: proxy_config(),
        l2_link_config: l2_link_config(),
        wireless_cfg: wireless_config(),
        test_results: test_results(""),
    }
}

fn dpc(key: &str, ports: Vec<NetworkPortConfig>) -> DevicePortConfig {
    DevicePortConfig {
        version: 1,
        key: key.to_string(),
        time_priority: zero_time(),
        state: DPCState::Success,
        sha_file: String::new(),
        sha_value: None,
        test_results: test_results(""),
        last_ip_and_dns: zero_time(),
        ports,
    }
}

#[test]
fn port_mode_switching() {
    let mut port = port_config("eth0", DhcpType::Client);
    assert!(port.is_dhcp());
    assert!(!port.is_static());
    let subnet = IpNetwork { addr: IpAddress::V4([10, 0, 0, 2]), prefix_len: 24 };
    port.to_static(
        subnet,
        "10.0.0.1".to_string(),
        "lan".to_string(),
        Some(vec!["pool.example".to_string()]),
        Some(vec![IpAddress::V4([10, 0, 0, 1])]),
    );
    assert!(port.is_static());
    assert_eq!(port.dhcp_config.addr_subnet, Some(subnet));
    assert_eq!(port.dhcp_config.gateway, "10.0.0.1".to_string());
    port.to_dhcp();
    assert!(port.is_dhcp());
    assert_eq!(port.dhcp_config.addr_subnet, None);
    assert_eq!(port.dhcp_config.gateway, String::new());
    assert_eq!(port.dhcp_config.ntp_servers, None);

    let port = port_config("eth0", DhcpType::Client).into_static(
        subnet,
        "gw".to_string(),
        String::new(),
        None,
        None,
    );
    assert!(port.is_static());
    let port = port.into_dhcp();
    assert!(port.is_dhcp());
}

#[test]
fn port_proxy_replacement() {
    let mut port = port_config("eth0", DhcpType::Client);
    let mut proxy = proxy_config();
    proxy.network_proxy_enable = true;
    proxy.network_proxy_url = "http://proxy.example".to_string();
    port.set_proxy_config(proxy.clone());
    assert_eq!(port.proxy_config, proxy);
}

#[test]
fn dpc_port_lookup() {
    let mut config = dpc("zedagent", vec![
        port_config("eth0", DhcpType::Client),
        port_config("eth1", DhcpType::Static),
    ]);
    assert_eq!(config.get_port_by_name("eth1").map(|p| p.is_static()), Some(true));
    assert!(config.get_port_by_name("wlan0").is_none());
    let i = config.find_port_index("eth0").expect("eth0 exists");
    let mut replacement = port_config("eth0", DhcpType::Static);
    replacement.mtu = 9000;
    config.set_port(i, replacement);
    assert_eq!(config.get_port_by_name("eth0").map(|p| p.mtu), Some(9000));
}

#[test]
fn dpc_new_key_resets_test_state() {
    let config = dpc("zedagent", vec![port_config("eth0", DhcpType::Client)]);
    let fresh = config.to_new_dpc_with_key("manual");
    assert_eq!(fresh.key, "manual".to_string());
    assert_eq!(fresh.state, DPCState::Unset);
    assert_eq!(fresh.test_results, TestResults::default());
    assert_eq!(fresh.ports.len(), 1);
    assert_eq!(fresh.last_ip_and_dns, zero_time());
}

#[test]
fn dpc_list_lookup() {
    let list = DevicePortConfigList {
        current_index: 1,
        port_config_list: Some(vec![dpc("a", Vec::new()), dpc("b", Vec::new())]),
    };
    assert_eq!(list.get_dpc_by_key("b").map(|d| d.key.clone()), Some("b".to_string()));
    assert!(list.get_dpc_by_key("c").is_none());
    assert_eq!(list.get_current_dpc_key(), Some("b"));
    assert_eq!(list.get_current_dpc_ref().map(|d| d.key.clone()), Some("b".to_string()));
    assert_eq!(list.get_current_dpc_cloned().map(|d| d.key), Some("b".to_string()));

    let out_of_range = DevicePortConfigList {
        current_index: 5,
        port_config_list: Some(vec![dpc("a", Vec::new())]),
    };
    assert_eq!(out_of_range.get_current_dpc_key(), None);
    assert_eq!(out_of_range.get_current_dpc_cloned(), None);

    let empty = DevicePortConfigList { current_index: 0, port_config_list: None };
    assert!(empty.get_dpc_by_key("a").is_none());
    assert_eq!(empty.get_current_dpc_ref(), None);
}

#[test]
fn test_results_error_listing() {
    let ok = test_results("");
    assert!(!ok.is_error());
    assert_eq!(ok.map_error(), None);
    let failing = test_results("connect failed: interface eth1: no DNS server available");
    assert!(failing.is_error());
    assert_eq!(
        failing.map_error(),
        Some(vec![
            "connect failed".to_string(),
            "interface eth1".to_string(),
            "no DNS server available".to_string(),
        ])
    );
}

#[test]
fn timestamps_and_defaults() {
    assert_eq!(Timestamp::default(), zero_time());
    assert_eq!(Timestamp::at_secs(9).secs, 9);
}

#[test]
fn ip_network_validation() {
    assert_eq!(
        IpNetwork::new(IpAddress::V4([1, 2, 3, 4]), 32),
        Some(IpNetwork { addr: IpAddress::V4([1, 2, 3, 4]), prefix_len: 32 })
    );
    assert_eq!(IpNetwork::new(IpAddress::V4([1, 2, 3, 4]), 33), None);
    assert_eq!(
        IpNetwork::new(IpAddress::V6([0; 16]), 128).map(|n| n.prefix_len),
        Some(128)
    );
    assert_eq!(IpNetwork::new(IpAddress::V6([0; 16]), 129), None);
}
