use flecs_core::instance::config::InstancePortMapping;
use flecs_core::instance::id::InstanceId;
use flecs_core::lore::conf::{AppConfig, Mergeable, TriviallyMergeable};
use flecs_core::manifest::environment_variable::EnvironmentVariable;
use flecs_core::manifest::port::{PortMapping, PortRange};
use flecs_core::network::NetworkKind;

#[test]
fn port_range_text_reads_back() {
    for (start, end) in [(0, 0), (1, 65535), (100, 200)] {
        let range = PortRange { start, end };
        assert_eq!(PortRange::from_str(&range.to_string()), Ok(range));
    }
}

#[test]
fn port_mapping_text_reads_back() {
    let mappings = [
        PortMapping::Single(1, 2),
        PortMapping::Range {
            from: PortRange { start: 10, end: 20 },
            to: PortRange { start: 30, end: 40 },
        },
    ];
    for mapping in mappings {
        assert_eq!(PortMapping::from_str(&mapping.to_string()), Ok(mapping));
    }
}

#[test]
fn host_overlap_is_symmetric_and_follows_from_equal_hosts() {
    let a = PortMapping::Range {
        from: PortRange { start: 10, end: 10 },
        to: PortRange { start: 30, end: 30 },
    };
    let b = PortMapping::Single(10, 99);
    assert!(a.are_host_ports_equal(&b));
    assert!(b.are_host_ports_equal(&a));
    assert!(a.do_host_ports_overlap(&b));
    assert_eq!(a.normalize(), PortMapping::Single(10, 30));
}

#[test]
fn update_then_get_finds_the_mapping() {
    let mut mappings = InstancePortMapping::default();
    let mapping = PortMapping::Range {
        from: PortRange { start: 8000, end: 8010 },
        to: PortRange { start: 80, end: 90 },
    };
    assert_eq!(
        InstancePortMapping::update_port_mapping_vec(&mut mappings.tcp, mapping),
        Ok(false)
    );
    assert_eq!(
        InstancePortMapping::get_port_mapping_range_vec(&mappings.tcp, PortRange { start: 8000, end: 8010 }),
        Some(mapping)
    );
    assert_eq!(
        InstancePortMapping::delete_port_mapping_range_vec(&mut mappings.tcp, PortRange { start: 8000, end: 8010 }),
        Some(mapping)
    );
    assert_eq!(
        InstancePortMapping::get_port_mapping_range_vec(&mappings.tcp, PortRange { start: 8000, end: 8010 }),
        None
    );
}

#[test]
fn rejected_update_changes_nothing() {
    let mut tcp = vec![PortMapping::Single(5, 6)];
    let before = tcp.clone();
    let overlapping = PortMapping::Range {
        from: PortRange { start: 1, end: 9 },
        to: PortRange { start: 11, end: 19 },
    };
    assert!(InstancePortMapping::update_port_mapping_vec(&mut tcp, overlapping).is_err());
    assert_eq!(tcp, before);
}

#[test]
fn instance_id_text_reads_back() {
    for value in [0, 1, 0xdeadbeef, u32::MAX] {
        let id = InstanceId::new(value);
        assert_eq!(InstanceId::from_str(&id.to_string()), Ok(id));
    }
}

#[test]
fn environment_variable_text_reads_back() {
    let var = EnvironmentVariable {
        name: "NAME".to_string(),
        value: Some("a=b".to_string()),
    };
    assert_eq!(EnvironmentVariable::from_str(&var.to_string()), Ok(var));
}

#[test]
fn network_kind_text_reads_back() {
    for kind in [
        NetworkKind::NoNetwork,
        NetworkKind::Internal,
        NetworkKind::Bridge,
        NetworkKind::MACVLAN,
        NetworkKind::IpvlanL2,
        NetworkKind::IpvlanL3,
        NetworkKind::Unknown,
    ] {
        assert_eq!(NetworkKind::from(&kind.to_string()), kind);
    }
}

#[test]
fn merging_keeps_first_setting() {
    let mut a: Option<u8> = None;
    a.trivial_merge(Some(1));
    a.trivial_merge(Some(2));
    assert_eq!(a, Some(1));
    let mut conf = AppConfig { base_path: None };
    conf.merge(AppConfig {
        base_path: Some("/x".to_string()),
    });
    conf.merge(AppConfig {
        base_path: Some("/y".to_string()),
    });
    assert_eq!(conf.base_path, Some("/x".to_string()));
}
