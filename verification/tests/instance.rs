use flecs_core::instance::status::{aggregate_status, ContainerState, InstanceStatus};
use flecs_core::instance::config::{InstancePortMapping, TransportProtocol};
use flecs_core::instance::id::InstanceId;
use flecs_core::instance::usb::{UsbDevice, UsbError, UsbPathConfig, UsbValues};
use flecs_core::manifest::port::{PortMapping, PortRange};
use flecs_core::num::IntErrorKind;

/// A reader that gives `devnum` and `busnum` for the device at `port`.
fn fixed_usb_reader(port: &str, devnum: &str, busnum: &str) -> UsbValues {
    UsbValues {
        values: vec![
            (port.to_string(), "devnum".to_string(), devnum.to_string()),
            (port.to_string(), "busnum".to_string(), busnum.to_string()),
        ],
    }
}

#[test]
fn instance_display_instance_id() {
    assert_eq!("00000000", InstanceId { value: 0 }.to_string());
    assert_eq!("00000001", InstanceId { value: 1 }.to_string());
    assert_eq!("000000f0", InstanceId { value: 240 }.to_string());
    assert_eq!("0003da33", InstanceId { value: 252467 }.to_string());
}

#[test]
fn instance_instance_id_from_str() {
    assert_eq!(Ok(InstanceId::new(0)), InstanceId::from_str("0"));
    assert_eq!(
        Ok(InstanceId::new(0x01a55555)),
        InstanceId::from_str("01a55555")
    );
    assert_eq!(
        &IntErrorKind::InvalidDigit,
        InstanceId::from_str("invalid").err().unwrap().kind()
    );
    assert_eq!(
        &IntErrorKind::PosOverflow,
        InstanceId::from_str("1a2b3c4d5e6f").err().unwrap().kind()
    );
    assert_eq!(
        &IntErrorKind::Empty,
        InstanceId::from_str("").err().unwrap().kind()
    );
}

#[test]
fn mod_instance_id_from_str() {
    assert_eq!(Ok(InstanceId::new(0)), InstanceId::from_str("0"));
    assert_eq!(
        Ok(InstanceId::new(0x01a55555)),
        InstanceId::from_str("01a55555")
    );
    assert_eq!(
        &IntErrorKind::InvalidDigit,
        InstanceId::from_str("invalid").err().unwrap().kind()
    );
    assert_eq!(
        &IntErrorKind::PosOverflow,
        InstanceId::from_str("1a2b3c4d5e6f").err().unwrap().kind()
    );
    assert_eq!(
        &IntErrorKind::Empty,
        InstanceId::from_str("").err().unwrap().kind()
    );
}

#[test]
fn to_docker_id() {
    assert_eq!(
        InstanceId::new(0x2468).to_docker_id(),
        "flecs-00002468".to_string()
    );
}

#[test]
fn id_display_instance_id() {
    assert_eq!("00000000", InstanceId { value: 0 }.to_string());
    assert_eq!("00000001", InstanceId { value: 1 }.to_string());
    assert_eq!("000000f0", InstanceId { value: 240 }.to_string());
    assert_eq!("0003da33", InstanceId { value: 252467 }.to_string());
}

#[test]
fn usb_path_config_from_usb_device_ok() {
    let reader = fixed_usb_reader("usb_path_config_from_usb_device_ok", "919", "121");
    let usb_device = UsbDevice {
        device: String::default(),
        vendor: String::default(),
        port: "usb_path_config_from_usb_device_ok".to_string(),
        pid: 0,
        vid: 0,
    };
    assert_eq!(
        UsbPathConfig::try_from(&usb_device, &reader).unwrap(),
        UsbPathConfig {
            dev_num: 919,
            bus_num: 121,
            port: "usb_path_config_from_usb_device_ok".to_string(),
        }
    );
}

#[test]
fn usb_path_config_from_usb_device_err_devnum() {
    let reader = fixed_usb_reader("usb_path_config_from_usb_device_err_devnum", "aaa", "121");
    let usb_device = UsbDevice {
        device: String::default(),
        vendor: String::default(),
        port: "usb_path_config_from_usb_device_err_devnum".to_string(),
        pid: 0,
        vid: 0,
    };
    assert!(UsbPathConfig::try_from(&usb_device, &reader).is_err());
}

#[test]
fn usb_path_config_from_usb_device_err_busnum() {
    let reader = fixed_usb_reader("usb_path_config_from_usb_device_err_busnum", "100", "xxx");
    let usb_device = UsbDevice {
        device: String::default(),
        vendor: String::default(),
        port: "usb_path_config_from_usb_device_err_busnum".to_string(),
        pid: 0,
        vid: 0,
    };
    assert!(UsbPathConfig::try_from(&usb_device, &reader).is_err());
}

#[test]
fn instance_port_mapping_clear() {
    let mut instance_port_mapping = InstancePortMapping {
        tcp: vec![PortMapping::Single(1, 2), PortMapping::Single(3, 4)],
        sctp: vec![PortMapping::Single(1, 2)],
        udp: vec![PortMapping::Single(1, 2)],
    };
    instance_port_mapping.clear();
    assert!(instance_port_mapping.tcp.is_empty());
    assert!(instance_port_mapping.sctp.is_empty());
    assert!(instance_port_mapping.udp.is_empty());
}

#[test]
fn instance_port_mapping_is_empty_true() {
    assert!(InstancePortMapping {
        tcp: vec![],
        sctp: vec![],
        udp: vec![],
    }
    .is_empty());
}

#[test]
fn instance_port_mapping_is_empty_false() {
    assert!(!InstancePortMapping {
        tcp: vec![PortMapping::Single(1, 2)],
        sctp: vec![],
        udp: vec![],
    }
    .is_empty());
    assert!(!InstancePortMapping {
        tcp: vec![],
        sctp: vec![PortMapping::Single(1, 2)],
        udp: vec![],
    }
    .is_empty());
    assert!(!InstancePortMapping {
        tcp: vec![],
        sctp: vec![],
        udp: vec![PortMapping::Single(1, 2)],
    }
    .is_empty());
}

#[test]
fn instance_port_mapping_update_port_mapping_vec_replace() {
    let mut vec = vec![
        PortMapping::Single(1, 2),
        PortMapping::Single(10, 20),
        PortMapping::Single(100, 20),
    ];
    assert!(matches!(
        InstancePortMapping::update_port_mapping_vec(&mut vec, PortMapping::Single(10, 100)),
        Ok(true)
    ));
    assert_eq!(
        vec,
        vec![
            PortMapping::Single(1, 2),
            PortMapping::Single(10, 100),
            PortMapping::Single(100, 20),
        ]
    );
}

#[test]
fn instance_port_mapping_update_port_mapping_vec_add() {
    let mut vec = vec![
        PortMapping::Single(1, 2),
        PortMapping::Single(10, 20),
        PortMapping::Single(100, 20),
    ];
    assert!(matches!(
        InstancePortMapping::update_port_mapping_vec(&mut vec, PortMapping::Single(20, 100)),
        Ok(false)
    ));
    assert_eq!(
        vec,
        vec![
            PortMapping::Single(1, 2),
            PortMapping::Single(10, 20),
            PortMapping::Single(100, 20),
            PortMapping::Single(20, 100),
        ]
    );
}

#[test]
fn instance_port_mapping_update_port_mapping_vec_overlap() {
    let before = vec![
        PortMapping::Single(1, 2),
        PortMapping::Range {
            from: PortRange::new(50..=70),
            to: PortRange::new(100..=120),
        },
        PortMapping::Single(100, 20),
    ];
    let mut vec = before.clone();
    assert!(InstancePortMapping::update_port_mapping_vec(
        &mut vec,
        PortMapping::Single(60, 100)
    )
    .is_err());
    assert_eq!(vec, before);
}

#[test]
fn instance_port_mapping_delete_port_mapping_vec_some() {
    let mut vec = vec![
        PortMapping::Single(1, 2),
        PortMapping::Range {
            from: PortRange::new(50..=70),
            to: PortRange::new(100..=120),
        },
        PortMapping::Single(100, 20),
    ];
    assert_eq!(
        InstancePortMapping::delete_port_mapping_vec(&mut vec, 100),
        Some(PortMapping::Single(100, 20))
    );
    assert_eq!(
        vec,
        vec![
            PortMapping::Single(1, 2),
            PortMapping::Range {
                from: PortRange::new(50..=70),
                to: PortRange::new(100..=120),
            },
        ]
    );
}

#[test]
fn instance_port_mapping_delete_port_mapping_vec_none() {
    let before = vec![
        PortMapping::Single(1, 2),
        PortMapping::Range {
            from: PortRange::new(50..=70),
            to: PortRange::new(100..=120),
        },
        PortMapping::Single(100, 20),
    ];
    let mut vec = before.clone();
    assert!(InstancePortMapping::delete_port_mapping_vec(&mut vec, 30).is_none());
    assert_eq!(vec, before);
}

#[test]
fn instance_port_mapping_get_port_mapping_vec_some() {
    let vec = vec![
        PortMapping::Single(1, 2),
        PortMapping::Range {
            from: PortRange::new(50..=70),
            to: PortRange::new(100..=120),
        },
        PortMapping::Single(100, 20),
    ];
    assert_eq!(
        InstancePortMapping::get_port_mapping_vec(&vec, 100),
        Some(PortMapping::Single(100, 20))
    );
}

#[test]
fn instance_port_mapping_get_port_mapping_vec_none() {
    let vec = vec![
        PortMapping::Single(1, 2),
        PortMapping::Range {
            from: PortRange::new(50..=70),
            to: PortRange::new(100..=120),
        },
        PortMapping::Single(100, 20),
    ];
    assert!(InstancePortMapping::get_port_mapping_vec(&vec, 30).is_none());
}

#[test]
fn instance_port_mapping_get_port_mapping_range_vec_some() {
    let vec = vec![
        PortMapping::Single(1, 2),
        PortMapping::Range {
            from: PortRange::new(50..=70),
            to: PortRange::new(100..=120),
        },
        PortMapping::Single(100, 20),
    ];
    assert_eq!(
        InstancePortMapping::get_port_mapping_range_vec(&vec, PortRange::new(50..=70)),
        Some(PortMapping::Range {
            from: PortRange::new(50..=70),
            to: PortRange::new(100..=120),
        })
    );
}

#[test]
fn instance_port_mapping_get_port_mapping_range_vec_none() {
    let vec = vec![
        PortMapping::Single(1, 2),
        PortMapping::Range {
            from: PortRange::new(50..=70),
            to: PortRange::new(100..=120),
        },
        PortMapping::Single(100, 20),
    ];
    assert!(
        InstancePortMapping::get_port_mapping_range_vec(&vec, PortRange::new(50..=80))
            .is_none()
    );
}

#[test]
fn instance_port_mapping_delete_port_mapping_range_vec_some() {
    let mut vec = vec![
        PortMapping::Single(1, 2),
        PortMapping::Range {
            from: PortRange::new(50..=70),
            to: PortRange::new(100..=120),
        },
        PortMapping::Single(100, 20),
    ];
    assert_eq!(
        InstancePortMapping::delete_port_mapping_range_vec(&mut vec, PortRange::new(50..=70)),
        Some(PortMapping::Range {
            from: PortRange::new(50..=70),
            to: PortRange::new(100..=120),
        })
    );
    assert_eq!(
        vec,
        vec![PortMapping::Single(1, 2), PortMapping::Single(100, 20)]
    )
}

#[test]
fn instance_port_mapping_delete_port_mapping_range_vec_none() {
    let before = vec![
        PortMapping::Single(1, 2),
        PortMapping::Range {
            from: PortRange::new(50..=70),
            to: PortRange::new(100..=120),
        },
        PortMapping::Single(100, 20),
    ];
    let mut vec = before.clone();
    assert!(InstancePortMapping::delete_port_mapping_range_vec(
        &mut vec,
        PortRange::new(50..=80)
    )
    .is_none());
    assert_eq!(vec, before);
}

#[test]
fn instance_port_mapping_update_port_mapping() {
    let mut instance_port_mapping = InstancePortMapping::default();
    assert!(!instance_port_mapping
        .update_port_mapping(PortMapping::Single(20, 30), TransportProtocol::Tcp)
        .unwrap());
    assert_eq!(instance_port_mapping.tcp, vec![PortMapping::Single(20, 30)]);
    assert!(instance_port_mapping.udp.is_empty());
    assert!(instance_port_mapping.sctp.is_empty());
    assert!(!instance_port_mapping
        .update_port_mapping(PortMapping::Single(40, 50), TransportProtocol::Udp)
        .unwrap());
    assert_eq!(instance_port_mapping.tcp, vec![PortMapping::Single(20, 30)]);
    assert_eq!(instance_port_mapping.udp, vec![PortMapping::Single(40, 50)]);
    assert!(instance_port_mapping.sctp.is_empty());
    assert!(!instance_port_mapping
        .update_port_mapping(PortMapping::Single(99, 77), TransportProtocol::Sctp)
        .unwrap());
    assert_eq!(instance_port_mapping.tcp, vec![PortMapping::Single(20, 30)]);
    assert_eq!(instance_port_mapping.udp, vec![PortMapping::Single(40, 50)]);
    assert_eq!(
        instance_port_mapping.sctp,
        vec![PortMapping::Single(99, 77)]
    );
}

#[test]
fn instance_port_mapping_delete_port_mapping() {
    let mut instance_port_mapping = InstancePortMapping {
        tcp: vec![PortMapping::Single(3, 50)],
        udp: vec![PortMapping::Single(4, 50)],
        sctp: vec![PortMapping::Single(5, 50)],
    };
    assert_eq!(
        instance_port_mapping.delete_port_mapping(3, TransportProtocol::Tcp),
        Some(PortMapping::Single(3, 50))
    );
    assert!(instance_port_mapping.tcp.is_empty());
    assert_eq!(instance_port_mapping.udp, vec![PortMapping::Single(4, 50)]);
    assert_eq!(instance_port_mapping.sctp, vec![PortMapping::Single(5, 50)]);
    assert_eq!(
        instance_port_mapping.delete_port_mapping(4, TransportProtocol::Udp),
        Some(PortMapping::Single(4, 50))
    );
    assert!(instance_port_mapping.tcp.is_empty());
    assert!(instance_port_mapping.udp.is_empty());
    assert_eq!(instance_port_mapping.sctp, vec![PortMapping::Single(5, 50)]);
    assert_eq!(
        instance_port_mapping.delete_port_mapping(5, TransportProtocol::Sctp),
        Some(PortMapping::Single(5, 50))
    );
    assert!(instance_port_mapping.tcp.is_empty());
    assert!(instance_port_mapping.udp.is_empty());
    assert!(instance_port_mapping.sctp.is_empty());
}

#[test]
fn instance_port_mapping_get_port_mapping() {
    let instance_port_mapping = InstancePortMapping {
        tcp: vec![PortMapping::Single(3, 50)],
        udp: vec![PortMapping::Single(4, 50)],
        sctp: vec![PortMapping::Single(5, 50)],
    };
    assert_eq!(
        instance_port_mapping.get_port_mapping(3, TransportProtocol::Tcp),
        Some(PortMapping::Single(3, 50))
    );
    assert_eq!(
        instance_port_mapping.get_port_mapping(4, TransportProtocol::Udp),
        Some(PortMapping::Single(4, 50))
    );
    assert_eq!(
        instance_port_mapping.get_port_mapping(5, TransportProtocol::Sctp),
        Some(PortMapping::Single(5, 50))
    );
}

#[test]
fn instance_port_mapping_get_port_mapping_range() {
    let instance_port_mapping = InstancePortMapping {
        tcp: vec![PortMapping::Range {
            from: PortRange::new(5..=7),
            to: PortRange::new(7..=9),
        }],
        udp: vec![PortMapping::Range {
            from: PortRange::new(2..=3),
            to: PortRange::new(4..=5),
        }],
        sctp: vec![PortMapping::Range {
            from: PortRange::new(10..=15),
            to: PortRange::new(20..=25),
        }],
    };
    assert_eq!(
        instance_port_mapping
            .get_port_mapping_range(PortRange::new(5..=7), TransportProtocol::Tcp),
        Some(PortMapping::Range {
            from: PortRange::new(5..=7),
            to: PortRange::new(7..=9),
        })
    );
    assert_eq!(
        instance_port_mapping
            .get_port_mapping_range(PortRange::new(2..=3), TransportProtocol::Udp),
        Some(PortMapping::Range {
            from: PortRange::new(2..=3),
            to: PortRange::new(4..=5),
        })
    );
    assert_eq!(
        instance_port_mapping
            .get_port_mapping_range(PortRange::new(10..=15), TransportProtocol::Sctp),
        Some(PortMapping::Range {
            from: PortRange::new(10..=15),
            to: PortRange::new(20..=25),
        })
    );
}

#[test]
fn instance_port_mapping_delete_port_mapping_range() {
    let mut instance_port_mapping = InstancePortMapping {
        tcp: vec![PortMapping::Range {
            from: PortRange::new(5..=7),
            to: PortRange::new(7..=9),
        }],
        udp: vec![PortMapping::Range {
            from: PortRange::new(2..=3),
            to: PortRange::new(4..=5),
        }],
        sctp: vec![PortMapping::Range {
            from: PortRange::new(10..=15),
            to: PortRange::new(20..=25),
        }],
    };
    assert_eq!(
        instance_port_mapping
            .delete_port_mapping_range(PortRange::new(5..=7), TransportProtocol::Tcp),
        Some(PortMapping::Range {
            from: PortRange::new(5..=7),
            to: PortRange::new(7..=9),
        })
    );
    assert!(instance_port_mapping.tcp.is_empty());
    assert_eq!(
        instance_port_mapping.udp,
        vec![PortMapping::Range {
            from: PortRange::new(2..=3),
            to: PortRange::new(4..=5),
        }]
    );
    assert_eq!(
        instance_port_mapping.sctp,
        vec![PortMapping::Range {
            from: PortRange::new(10..=15),
            to: PortRange::new(20..=25),
        }]
    );
    assert_eq!(
        instance_port_mapping
            .delete_port_mapping_range(PortRange::new(2..=3), TransportProtocol::Udp),
        Some(PortMapping::Range {
            from: PortRange::new(2..=3),
            to: PortRange::new(4..=5),
        })
    );
    assert!(instance_port_mapping.tcp.is_empty());
    assert!(instance_port_mapping.udp.is_empty());
    assert_eq!(
        instance_port_mapping.sctp,
        vec![PortMapping::Range {
            from: PortRange::new(10..=15),
            to: PortRange::new(20..=25),
        }]
    );
    assert_eq!(
        instance_port_mapping
            .delete_port_mapping_range(PortRange::new(10..=15), TransportProtocol::Sctp),
        Some(PortMapping::Range {
            from: PortRange::new(10..=15),
            to: PortRange::new(20..=25),
        })
    );
    assert!(instance_port_mapping.tcp.is_empty());
    assert!(instance_port_mapping.udp.is_empty());
    assert!(instance_port_mapping.sctp.is_empty());
}

#[test]
fn instance_status_from_container_status() {
    for (state, status) in [
        (ContainerState::Empty, InstanceStatus::Orphaned),
        (ContainerState::Created, InstanceStatus::Orphaned),
        (ContainerState::Running, InstanceStatus::Running),
        (ContainerState::Paused, InstanceStatus::Running),
        (ContainerState::Restarting, InstanceStatus::Running),
        (ContainerState::Removing, InstanceStatus::Running),
        (ContainerState::Exited, InstanceStatus::Orphaned),
        (ContainerState::Dead, InstanceStatus::Orphaned),
    ] {
        assert_eq!(InstanceStatus::from_container_state(state), status);
    }
}

#[test]
fn aggregate_status_of_containers() {
    assert_eq!(aggregate_status(vec![]), InstanceStatus::Stopped);
    assert_eq!(
        aggregate_status(vec![InstanceStatus::Running, InstanceStatus::Running]),
        InstanceStatus::Running
    );
    assert_eq!(
        aggregate_status(vec![InstanceStatus::Running, InstanceStatus::Stopped]),
        InstanceStatus::Unknown
    );
}

#[test]
fn new_random_instance_ids_are_ids() {
    let id = InstanceId::new_random();
    assert_eq!(InstanceId::from_str(&id.to_string()), Ok(id));
}

#[test]
fn instance_status_from_inspection() {
    assert_eq!(InstanceStatus::from_inspection(None), InstanceStatus::Stopped);
    assert_eq!(InstanceStatus::from_inspection(Some(None)), InstanceStatus::Unknown);
    assert_eq!(
        InstanceStatus::from_inspection(Some(Some(ContainerState::Paused))),
        InstanceStatus::Running
    );
}

#[test]
fn usb_path_config_reader_errors_in_read_order() {
    let usb_device = UsbDevice {
        device: String::default(),
        vendor: String::default(),
        port: "2-1".to_string(),
        pid: 0,
        vid: 0,
    };
    assert_eq!(
        UsbPathConfig::try_from(&usb_device, &UsbValues { values: vec![] }),
        Err(UsbError::Read {
            value_name: "devnum".to_string(),
            port: "2-1".to_string(),
        })
    );
    let only_dev = UsbValues {
        values: vec![("2-1".to_string(), "devnum".to_string(), "7".to_string())],
    };
    assert_eq!(
        UsbPathConfig::try_from(&usb_device, &only_dev),
        Err(UsbError::Read {
            value_name: "busnum".to_string(),
            port: "2-1".to_string(),
        })
    );
    assert_eq!(
        UsbPathConfig::try_from(&usb_device, &fixed_usb_reader("2-1", "7", "xxx")),
        Err(UsbError::InvalidNumber {
            value_name: "busnum".to_string(),
            kind: IntErrorKind::InvalidDigit,
        })
    );
    assert_eq!(
        UsbPathConfig::try_from(&usb_device, &fixed_usb_reader("2-1", "7", "3")),
        Ok(UsbPathConfig {
            port: "2-1".to_string(),
            bus_num: 3,
            dev_num: 7,
        })
    );
}
