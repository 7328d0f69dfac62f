use flecs_core::instance::docker::{
    transfer_ip_address, IpAddress, Ipv6Net, NetworkSubnets, TransferIpError,
};
use flecs_core::network::{
    create_network_step, existing_network_error, find_option, CreateNetworkStep, needs_parent_adapter, network_create_options, network_fits,
    CreateNetworkError, Ipv4Net, NetworkAdapter, NetworkConfig, NetworkInfo, NetworkKind,
};

/// An IPv4 address in dotted notation as a number.
fn v4(text: &str) -> u32 {
    let parts: Vec<u32> = text.split('.').map(|p| p.parse().unwrap()).collect();
    assert_eq!(parts.len(), 4);
    parts.iter().fold(0, |acc, p| (acc << 8) | p)
}

/// An IPv6 address (with at most one `::`) as a number.
fn v6(text: &str) -> u128 {
    let groups = |s: &str| -> Vec<u128> {
        if s.is_empty() {
            vec![]
        } else {
            s.split(':').map(|g| u128::from_str_radix(g, 16).unwrap()).collect()
        }
    };
    let (head, tail) = match text.split_once("::") {
        Some((h, t)) => (groups(h), groups(t)),
        None => (groups(text), vec![]),
    };
    let mut all = head.clone();
    all.extend(std::iter::repeat(0).take(8 - head.len() - tail.len()));
    all.extend(tail);
    all.iter().fold(0, |acc, g| (acc << 16) | g)
}

fn net4(text: &str) -> Ipv4Net {
    let (address, prefix) = text.split_once('/').unwrap();
    Ipv4Net {
        address: v4(address),
        prefix_len: prefix.parse().unwrap(),
    }
}

fn net6(text: &str) -> Ipv6Net {
    let (address, prefix) = text.split_once('/').unwrap();
    Ipv6Net {
        address: v6(address),
        prefix_len: prefix.parse().unwrap(),
    }
}

fn options(pairs: &[(&str, &str)]) -> Vec<(String, String)> {
    pairs
        .iter()
        .map(|(k, v)| (k.to_string(), v.to_string()))
        .collect()
}

fn fitting_network_config_data() -> (NetworkInfo, NetworkConfig) {
    let config = NetworkConfig {
        kind: NetworkKind::Bridge,
        name: "TestNetwork".to_string(),
        cidr_subnet: Some(net4("10.67.3.0/24")),
        gateway: Some(v4("10.67.3.12")),
        parent_adapter: Some("ParentTestNetwork".to_string()),
        options: Some(options(&[
            ("Option1", "value 1"),
            ("Option2", "value 2"),
            ("Option3", "value 3"),
        ])),
    };
    let network = NetworkInfo {
        name: Some("TestNetwork".to_string()),
        kind: NetworkKind::Bridge,
        subnets: Ok(vec![net4("10.67.3.0/24")]),
        gateways: Ok(vec![v4("10.67.3.12")]),
        parent: Some("ParentTestNetwork".to_string()),
        options: Some(options(&[
            ("parent", "ParentTestNetwork"),
            ("Option1", "value 1"),
            ("Option2", "value 2"),
            ("Option3", "value 3"),
        ])),
    };
    (network, config)
}

#[test]
fn network_config_fits_network_everything_fits() {
    let (network, config) = fitting_network_config_data();
    assert!(network_fits(&config, &network).unwrap())
}

#[test]
fn network_config_fits_network_false_name() {
    let (network, mut config) = fitting_network_config_data();
    config.name = "Other".to_string();
    assert!(!network_fits(&config, &network).unwrap())
}

#[test]
fn network_config_fits_network_false_kind() {
    let (network, mut config) = fitting_network_config_data();
    config.kind = NetworkKind::MACVLAN;
    assert!(!network_fits(&config, &network).unwrap())
}

#[test]
fn network_config_fits_network_false_subnet() {
    let (network, mut config) = fitting_network_config_data();
    config.cidr_subnet = Some(net4("10.20.30.0/24"));
    assert!(!network_fits(&config, &network).unwrap())
}

#[test]
fn network_config_fits_network_false_gateway() {
    let (network, mut config) = fitting_network_config_data();
    config.gateway = Some(v4("10.20.30.40"));
    assert!(!network_fits(&config, &network).unwrap())
}

#[test]
fn network_config_fits_network_false_parent() {
    let (network, mut config) = fitting_network_config_data();
    config.parent_adapter = Some("Other".to_string());
    assert!(!network_fits(&config, &network).unwrap())
}

#[test]
fn network_config_fits_network_false_options() {
    let (network, mut config) = fitting_network_config_data();
    config
        .options
        .as_mut()
        .unwrap()
        .push(("Custom Option".to_string(), "unexpected".to_string()));
    assert!(!network_fits(&config, &network).unwrap())
}

#[test]
fn network_config_fits_network_err_subnet() {
    let (mut network, config) = fitting_network_config_data();
    network.subnets = Err("invalid subnet".to_string());
    assert!(network_fits(&config, &network).is_err())
}

#[test]
fn network_config_fits_network_err_gateway() {
    let (mut network, config) = fitting_network_config_data();
    network.gateways = Err("invalid gateway".to_string());
    assert!(network_fits(&config, &network).is_err())
}

fn bare_network(name: Option<&str>) -> NetworkInfo {
    NetworkInfo {
        name: name.map(str::to_string),
        kind: NetworkKind::Unknown,
        subnets: Ok(vec![]),
        gateways: Ok(vec![]),
        parent: None,
        options: None,
    }
}

#[test]
fn name_fits_network_true() {
    let network = bare_network(Some("TestNetwork"));
    assert!(network.name_fits(&"TestNetwork".to_string()));
}

#[test]
fn name_fits_network_false_some() {
    let network = bare_network(Some("OtherTestNetwork"));
    assert!(!network.name_fits(&"TestNetwork".to_string()));
}

#[test]
fn name_fits_network_false_none() {
    let network = bare_network(None);
    assert!(!network.name_fits(&"TestNetwork".to_string()));
}

#[test]
fn kind_fits_network_true() {
    let mut network = bare_network(None);
    network.kind = NetworkKind::Bridge;
    assert!(network.kind_fits(NetworkKind::Bridge));
}

#[test]
fn kind_fits_network_false() {
    let mut network = bare_network(None);
    network.kind = NetworkKind::Bridge;
    assert!(!network.kind_fits(NetworkKind::IpvlanL2));
}

#[test]
fn subnet_fits_network_true_some() {
    let mut network = bare_network(None);
    network.subnets = Ok(vec![net4("44.11.0.0/16")]);
    assert!(network.subnet_fits(Some(net4("44.11.0.0/16"))).unwrap());
}

#[test]
fn subnet_fits_network_true_none() {
    let network = bare_network(None);
    assert!(network.subnet_fits(None).unwrap());
}

#[test]
fn subnet_fits_network_false() {
    let mut network = bare_network(None);
    network.subnets = Ok(vec![net4("44.11.0.0/16")]);
    assert!(!network.subnet_fits(Some(net4("44.21.0.0/16"))).unwrap());
}

#[test]
fn subnet_fits_network_err() {
    let mut network = bare_network(None);
    network.subnets = Err("invalid".to_string());
    assert!(network.subnet_fits(Some(net4("44.11.0.0/16"))).is_err());
}

#[test]
fn gateway_fits_network_true_some() {
    let mut network = bare_network(None);
    network.gateways = Ok(vec![v4("44.11.24.12")]);
    assert!(network.gateway_fits(Some(v4("44.11.24.12"))).unwrap());
}

#[test]
fn gateway_fits_network_true_none() {
    let network = bare_network(None);
    assert!(network.gateway_fits(None).unwrap());
}

#[test]
fn gateway_fits_network_err() {
    let mut network = bare_network(None);
    network.gateways = Err("invalid".to_string());
    assert!(network.gateway_fits(Some(v4("44.11.24.12"))).is_err());
}

#[test]
fn options_fit_network_without_options() {
    let network = bare_network(None);
    assert!(network.options_fit(&None));
    assert!(network.options_fit(&Some(vec![])));
    assert!(!network.options_fit(&Some(options(&[("a", "b")]))));
}

fn subnets_of(text: &str) -> NetworkSubnets {
    if text.contains(':') {
        NetworkSubnets {
            ipv4: Ok(None),
            ipv6: Ok(Some(net6(text))),
        }
    } else {
        NetworkSubnets {
            ipv4: Ok(Some(net4(text))),
            ipv6: Ok(None),
        }
    }
}

fn address(text: &str) -> IpAddress {
    if text.contains(':') {
        IpAddress::V6(v6(text))
    } else {
        IpAddress::V4(v4(text))
    }
}

#[test]
fn transfer_ip_ok() {
    let cases = [
        ("192.168.54.23", "192.168.34.0/24", "192.168.34.23"),
        ("10.3.72.198", "10.12.0.0/16", "10.12.72.198"),
        ("172.16.88.7", "172.20.45.0/24", "172.20.45.7"),
        ("203.45.112.9", "8.8.0.0/16", "8.8.112.9"),
        ("8.46.219.33", "100.64.12.0/22", "100.64.15.33"),
        ("99.120.55.101", "203.0.113.0/24", "203.0.113.101"),
        ("45.67.89.10", "198.51.100.0/25", "198.51.100.10"),
        ("132.4.78.199", "192.0.2.128/26", "192.0.2.135"),
        ("11.254.30.66", "15.35.0.0/20", "15.35.14.66"),
        ("63.91.182.240", "185.76.144.0/21", "185.76.150.240"),
        ("2001:db8:abcd:1234::1", "2001:db8:abcd::/48", "2001:db8:abcd:1234::1"),
        (
            "fd12:3456:789a:ffff::dead:beef",
            "fd12:3456::/32",
            "fd12:3456:789a:ffff::dead:beef",
        ),
        ("fe80::abcd:1234:5678:9abc", "fe80::/128", "fe80::"),
        ("2606:4700:abcd:ef12::1", "2606:4700:abcd:1200::/56", "2606:4700:abcd:1212::1"),
        ("2001:4860:dead:beef::42", "2001:4860:feed::/40", "2001:4860:feed:beef::42"),
        ("2a00:1450:4001:82a::f1", "2a00:1450:4001:800::/61", "2a00:1450:4001:802::f1"),
    ];
    for (current, network, expected) in cases {
        let id = network.to_string();
        assert_eq!(
            transfer_ip_address(address(current), &subnets_of(network), &id).unwrap(),
            address(expected),
            "{current} into {network}"
        );
    }
}

#[test]
fn transfer_ipv4_err_ipam() {
    let id = "TestNetwork".to_string();
    let ip = IpAddress::V4(v4("10.20.30.40"));
    let network = NetworkSubnets {
        ipv4: Err("invalid".to_string()),
        ipv6: Err("invalid".to_string()),
    };
    let result = transfer_ip_address(ip, &network, &id);
    assert!(
        matches!(result, Err(TransferIpError::InspectNetwork { .. })),
        "{result:?}"
    );
}

#[test]
fn transfer_ipv4_err_no_fitting_network() {
    let id = "TestNetwork".to_string();
    let ip = IpAddress::V4(v4("10.20.30.40"));
    let network = subnets_of("2a00:1450:4001:800::/61");
    let result = transfer_ip_address(ip, &network, &id);
    assert!(
        matches!(result, Err(TransferIpError::NoFittingNetwork { .. })),
        "{result:?}"
    );
}

#[test]
fn transfer_ipv6_err_ipam() {
    let id = "TestNetwork".to_string();
    let ip = address("2a00:1450:4001:800::2");
    let network = NetworkSubnets {
        ipv4: Err("invalid".to_string()),
        ipv6: Err("invalid".to_string()),
    };
    let result = transfer_ip_address(ip, &network, &id);
    assert!(
        matches!(result, Err(TransferIpError::InspectNetwork { .. })),
        "{result:?}"
    );
}

#[test]
fn transfer_ipv6_err_no_fitting_network() {
    let id = "TestNetwork".to_string();
    let ip = address("2a00:1450:4001:800::2");
    let network = subnets_of("10.20.30.0/24");
    let result = transfer_ip_address(ip, &network, &id);
    assert!(
        matches!(result, Err(TransferIpError::NoFittingNetwork { .. })),
        "{result:?}"
    );
}

#[test]
fn existing_network_is_exact_or_different() {
    let (network, mut config) = fitting_network_config_data();
    let (expected, _) = fitting_network_config_data();
    assert_eq!(
        existing_network_error(&config, network),
        CreateNetworkError::ExactNetworkExists(expected)
    );
    config.gateway = Some(v4("10.20.30.40"));
    let (network, _) = fitting_network_config_data();
    let (expected, _) = fitting_network_config_data();
    assert_eq!(
        existing_network_error(&config, network),
        CreateNetworkError::DifferentNetworkExists(expected)
    );
    let (mut network, config) = fitting_network_config_data();
    network.subnets = Err("bad subnet".to_string());
    assert_eq!(
        existing_network_error(&config, network),
        CreateNetworkError::Other("bad subnet".to_string())
    );
}

fn ipvlan_config(kind: NetworkKind, parent: Option<&str>) -> NetworkConfig {
    NetworkConfig {
        kind,
        name: "flecs-ipvlan".to_string(),
        cidr_subnet: None,
        gateway: None,
        parent_adapter: parent.map(str::to_string),
        options: Some(options(&[("mtu", "1500"), ("ipvlan_mode", "l3")])),
    }
}

#[test]
fn create_bridge_network_keeps_its_settings() {
    let (_, config) = fitting_network_config_data();
    assert!(!needs_parent_adapter(&config));
    let created = network_create_options(config, None).unwrap();
    assert_eq!(created.name, "TestNetwork");
    assert_eq!(created.driver, "bridge");
    assert_eq!(created.subnet, Some(net4("10.67.3.0/24")));
    assert_eq!(created.gateway, Some(v4("10.67.3.12")));
    assert_eq!(
        find_option(&created.options, &"parent".to_string()),
        Some("ParentTestNetwork".to_string())
    );
    assert_eq!(
        find_option(&created.options, &"Option2".to_string()),
        Some("value 2".to_string())
    );
    assert_eq!(find_option(&created.options, &"ipvlan_mode".to_string()), None);
}

#[test]
fn create_ipvlan_network_takes_subnet_from_parent() {
    let config = ipvlan_config(NetworkKind::IpvlanL2, Some("eth0"));
    assert!(needs_parent_adapter(&config));
    let adapter = NetworkAdapter {
        name: "eth0".to_string(),
        ipv4_networks: vec![net4("192.168.7.31/24")],
        gateway: Some(v4("192.168.7.1")),
    };
    let created = network_create_options(config, Some(adapter)).unwrap();
    assert_eq!(created.driver, "ipvlan");
    assert_eq!(created.subnet, Some(net4("192.168.7.0/24")));
    assert_eq!(created.gateway, Some(v4("192.168.7.1")));
    assert_eq!(
        find_option(&created.options, &"ipvlan_mode".to_string()),
        Some("l2".to_string())
    );
    assert_eq!(
        find_option(&created.options, &"parent".to_string()),
        Some("eth0".to_string())
    );
    assert_eq!(
        find_option(&created.options, &"mtu".to_string()),
        Some("1500".to_string())
    );
}

#[test]
fn create_network_refusals() {
    assert_eq!(
        network_create_options(ipvlan_config(NetworkKind::IpvlanL3, None), None),
        Err(CreateNetworkError::NetworkConfigInvalid {
            location: "parent_adapter".to_string(),
            reason: "Can not create ipvlan network without parent".to_string(),
        })
    );
    assert_eq!(
        network_create_options(ipvlan_config(NetworkKind::IpvlanL3, Some("eth9")), None),
        Err(CreateNetworkError::NetworkConfigInvalid {
            location: "parent_adapter".to_string(),
            reason: "Parent network adapter eth9 does not exist".to_string(),
        })
    );
    let adapter = NetworkAdapter {
        name: "eth1".to_string(),
        ipv4_networks: vec![],
        gateway: None,
    };
    assert_eq!(
        network_create_options(ipvlan_config(NetworkKind::IpvlanL3, Some("eth1")), Some(adapter)),
        Err(CreateNetworkError::NetworkConfigInvalid {
            location: "parent_adapter".to_string(),
            reason: "Parent network adapter eth1 is not ready".to_string(),
        })
    );
    assert_eq!(
        network_create_options(ipvlan_config(NetworkKind::Unknown, None), None),
        Err(CreateNetworkError::NetworkConfigInvalid {
            location: "kind".to_string(),
            reason: "Invalid network type unknown".to_string(),
        })
    );
}

#[test]
fn create_network_steps() {
    let (network, config) = fitting_network_config_data();
    let (expected, _) = fitting_network_config_data();
    assert_eq!(
        create_network_step(config.clone(), Some(network), None),
        CreateNetworkStep::Refuse(CreateNetworkError::ExactNetworkExists(expected))
    );
    let ipvlan = ipvlan_config(NetworkKind::IpvlanL2, Some("eth0"));
    assert_eq!(
        create_network_step(ipvlan.clone(), None, None),
        CreateNetworkStep::ReadAdapters
    );
    let adapters = vec![
        NetworkAdapter {
            name: "lo".to_string(),
            ipv4_networks: vec![net4("127.0.0.1/8")],
            gateway: None,
        },
        NetworkAdapter {
            name: "eth0".to_string(),
            ipv4_networks: vec![net4("10.1.2.3/16")],
            gateway: Some(v4("10.1.0.1")),
        },
    ];
    match create_network_step(ipvlan, None, Some(adapters.clone())) {
        CreateNetworkStep::Create(o) => {
            assert_eq!(o.subnet, Some(net4("10.1.0.0/16")));
            assert_eq!(o.gateway, Some(v4("10.1.0.1")));
        }
        other => panic!("unexpected step {other:?}"),
    }
    assert_eq!(
        create_network_step(ipvlan_config(NetworkKind::IpvlanL2, Some("eth7")), None, Some(adapters)),
        CreateNetworkStep::Refuse(CreateNetworkError::NetworkConfigInvalid {
            location: "parent_adapter".to_string(),
            reason: "Parent network adapter eth7 does not exist".to_string(),
        })
    );
    match create_network_step(config, None, None) {
        CreateNetworkStep::Create(o) => assert_eq!(o.driver, "bridge"),
        other => panic!("unexpected step {other:?}"),
    }
}

#[test]
fn transfer_within_own_subnet_keeps_the_address() {
    let id = "net".to_string();
    assert_eq!(
        transfer_ip_address(address("10.12.5.6"), &subnets_of("10.12.0.0/16"), &id).unwrap(),
        address("10.12.5.6")
    );
    assert_eq!(
        transfer_ip_address(address("fd00::1:2"), &subnets_of("fd00::/64"), &id).unwrap(),
        address("fd00::1:2")
    );
}
