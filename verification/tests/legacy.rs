use flecs_core::app::{app_status_from_legacy, AppStatus};
use flecs_core::instance::usb::{UsbDevice, UsbError, UsbValues};
use flecs_core::legacy::{migrate_devices, migrate_environment, migrate_ports, Device};
use flecs_core::manifest::port::{PortMapping, PortRange};

/// A reader that knows the devices at `1-1` and `1-2`, each with device number 4 on bus 2.
fn numbered_reader() -> UsbValues {
    let mut values = Vec::new();
    for port in ["1-1", "1-2"] {
        values.push((port.to_string(), "devnum".to_string(), "4".to_string()));
        values.push((port.to_string(), "busnum".to_string(), "2".to_string()));
    }
    UsbValues { values }
}

fn device(port: &str) -> Device {
    Device {
        device: "dev".to_string(),
        pid: 1,
        port: port.to_string(),
        vendor: "vendor".to_string(),
        vid: 2,
    }
}

#[test]
fn legacy_environment() {
    let env = vec!["A=1".to_string(), "B".to_string()];
    let vars = migrate_environment(&env).unwrap();
    assert_eq!(vars.len(), 2);
    assert_eq!(vars[0].to_string(), "A=1");
    assert_eq!(vars[1].value, None);
    assert!(migrate_environment(&vec!["A=1".to_string(), "in valid".to_string()]).is_err());
}

#[test]
fn legacy_ports_for_tcp_and_udp() {
    let ports = vec!["80:8080".to_string(), "10-11:20-21".to_string()];
    let mapping = migrate_ports(&ports).unwrap();
    let expected = vec![
        PortMapping::Single(80, 8080),
        PortMapping::Range {
            from: PortRange { start: 10, end: 11 },
            to: PortRange { start: 20, end: 21 },
        },
    ];
    assert_eq!(mapping.tcp, expected);
    assert_eq!(mapping.udp, expected);
    assert!(mapping.sctp.is_empty());
    assert!(migrate_ports(&vec!["1-2:3-5".to_string()]).is_err());
}

#[test]
fn legacy_devices() {
    let list = migrate_devices(vec![device("1-1"), device("1-2")], &numbered_reader()).unwrap();
    assert_eq!(list.len(), 2);
    assert_eq!(list[1].0, "1-2");
    assert_eq!(list[1].1.dev_num, 4);
    assert_eq!(list[1].1.bus_num, 2);
    assert_eq!(
        migrate_devices(vec![device("1-1"), device("missing")], &numbered_reader()),
        Err(UsbError::Read {
            value_name: "devnum".to_string(),
            port: "missing".to_string(),
        })
    );
}

#[test]
fn legacy_device_to_usb_device() {
    let usb = UsbDevice::from(device("3-1"));
    assert_eq!(usb.port, "3-1");
    assert_eq!(usb.vid, 2);
    assert_eq!(usb.pid, 1);
}

#[test]
fn legacy_app_status() {
    assert_eq!(app_status_from_legacy("installed"), AppStatus::Installed);
    assert_eq!(app_status_from_legacy("not installed"), AppStatus::NotInstalled);
}

#[test]
fn legacy_no_devices() {
    assert_eq!(migrate_devices(vec![], &numbered_reader()).unwrap().len(), 0);
}
