use flecs_core::instance::config::{
    new_port_bindings, port_mapping_to_port_bindings, InstancePortMapping, TransportProtocol,
};
use flecs_core::instance::usb::{UsbError, UsbPathConfig};
use flecs_core::manifest::port::{PortMapping, PortRange};
use flecs_core::num::IntErrorKind;
use std::collections::HashMap;

fn pair(key: &str, host: u16) -> (String, String) {
    (key.to_string(), host.to_string())
}

#[test]
fn new_port_bindings_test() {
    assert_eq!(new_port_bindings(10, 20, TransportProtocol::Tcp), pair("20/tcp", 10));
    assert_eq!(new_port_bindings(10, 20, TransportProtocol::Udp), pair("20/udp", 10));
    assert_eq!(new_port_bindings(10, 20, TransportProtocol::Sctp), pair("20/sctp", 10));
}

#[test]
fn port_mapping_to_port_bindings_single() {
    let port_mapping = PortMapping::Single(60, 600);
    assert_eq!(
        port_mapping_to_port_bindings(&port_mapping, TransportProtocol::Tcp),
        vec![pair("600/tcp", 60)]
    );
    assert_eq!(
        port_mapping_to_port_bindings(&port_mapping, TransportProtocol::Udp),
        vec![pair("600/udp", 60)]
    );
    assert_eq!(
        port_mapping_to_port_bindings(&port_mapping, TransportProtocol::Sctp),
        vec![pair("600/sctp", 60)]
    );
}

#[test]
fn port_mapping_to_port_bindings_range() {
    let port_mapping = PortMapping::Range {
        from: PortRange::try_new(100, 102).unwrap(),
        to: PortRange::try_new(40, 42).unwrap(),
    };
    assert_eq!(
        port_mapping_to_port_bindings(&port_mapping, TransportProtocol::Tcp),
        vec![pair("40/tcp", 100), pair("41/tcp", 101), pair("42/tcp", 102)]
    );
    assert_eq!(
        port_mapping_to_port_bindings(&port_mapping, TransportProtocol::Udp),
        vec![pair("40/udp", 100), pair("41/udp", 101), pair("42/udp", 102)]
    );
}

#[test]
fn port_mapping_to_port_bindings_uneven_range_stops_early() {
    let port_mapping = PortMapping::Range {
        from: PortRange { start: 1, end: 5 },
        to: PortRange { start: 10, end: 11 },
    };
    assert_eq!(
        port_mapping_to_port_bindings(&port_mapping, TransportProtocol::Tcp),
        vec![pair("10/tcp", 1), pair("11/tcp", 2)]
    );
    let empty = PortMapping::Range {
        from: PortRange { start: 5, end: 1 },
        to: PortRange { start: 10, end: 11 },
    };
    assert!(port_mapping_to_port_bindings(&empty, TransportProtocol::Tcp).is_empty());
}

#[test]
fn generate_port_bindings_test() {
    let mappings = vec![
        PortMapping::Range {
            from: PortRange::try_new(100, 102).unwrap(),
            to: PortRange::try_new(40, 42).unwrap(),
        },
        PortMapping::Single(60, 600),
    ];
    let config = InstancePortMapping {
        tcp: mappings.clone(),
        udp: mappings.clone(),
        sctp: mappings,
    };
    let bindings: HashMap<String, String> = config.generate_port_bindings().into_iter().collect();
    let mut expected = HashMap::new();
    for protocol in ["tcp", "udp", "sctp"] {
        for (container, host) in [(40, 100), (41, 101), (42, 102), (600, 60)] {
            expected.insert(format!("{container}/{protocol}"), format!("{host}"));
        }
    }
    assert_eq!(bindings, expected);
    assert_eq!(config.generate_port_bindings()[0], pair("40/tcp", 100));
    assert_eq!(config.generate_port_bindings()[11], pair("600/sctp", 60));
}

#[test]
fn usb_device_path_is_padded() {
    let config = UsbPathConfig {
        port: "1-1".to_string(),
        bus_num: 10,
        dev_num: 20,
    };
    assert_eq!(config.device_path(), "/dev/bus/usb/010/020");
    let config = UsbPathConfig {
        port: "1-1".to_string(),
        bus_num: 1234,
        dev_num: 5,
    };
    assert_eq!(config.device_path(), "/dev/bus/usb/1234/005");
}

#[test]
fn usb_path_config_from_values() {
    assert_eq!(
        UsbPathConfig::from_usb_values("2-1", &"7".to_string(), &"3".to_string()),
        Ok(UsbPathConfig {
            port: "2-1".to_string(),
            bus_num: 3,
            dev_num: 7,
        })
    );
    assert_eq!(
        UsbPathConfig::from_usb_values("2-1", &"x".to_string(), &"y".to_string()),
        Err(UsbError::InvalidNumber {
            value_name: "devnum".to_string(),
            kind: IntErrorKind::InvalidDigit,
        })
    );
    assert_eq!(
        UsbPathConfig::from_usb_values("2-1", &"7".to_string(), &"99999".to_string()),
        Err(UsbError::InvalidNumber {
            value_name: "busnum".to_string(),
            kind: IntErrorKind::PosOverflow,
        })
    );
}

#[test]
fn normalizing_keeps_bindings() {
    let mapping = PortMapping::Range {
        from: PortRange { start: 10, end: 10 },
        to: PortRange { start: 20, end: 20 },
    };
    assert_eq!(
        port_mapping_to_port_bindings(&mapping, TransportProtocol::Udp),
        port_mapping_to_port_bindings(&mapping.normalize(), TransportProtocol::Udp)
    );
    assert_eq!(
        port_mapping_to_port_bindings(&mapping, TransportProtocol::Udp),
        vec![pair("20/udp", 10)]
    );
}
