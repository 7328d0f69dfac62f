use flecs_core::lore::conf::{Mergeable, NetworkConfig};
use flecs_core::deployment::{ComposeDeploymentImpl, DockerDeploymentImpl, SerializedDeployment};
use flecs_core::lore::conf::{AppConfig, ExportConfig, FlecsConfig, merge_confs};
use flecs_core::lore::conf::InstanceConfig;
use flecs_core::lore::{InstanceLore, Lore};
use flecs_core::manifest::DependencyKey;
use flecs_core::instance::config::InstancePortMapping;
use flecs_core::manifest::port::{PortMapping, PortRange};
use flecs_core::instance::config::TransportProtocol;

#[test]
fn dependency_keys_with_same_features_are_equal() {
    assert_eq!(DependencyKey::new("b | a").to_string(), "a|b");
    assert_eq!(
        DependencyKey::new("a|b|a").to_string(),
        DependencyKey::new(" a | a | b ").to_string()
    );
    let key = DependencyKey::new("zeta | alpha|mid");
    assert_eq!(DependencyKey::new(&key.to_string()).to_string(), key.to_string());
}

#[test]
fn instance_paths_are_apart() {
    let lore = InstanceLore::from_conf_with_defaults(
        InstanceConfig {
            base_path: Some("/var/lib/flecs/instances".to_string()),
        },
        "/",
    );
    assert_eq!(lore.instance_config_path("abc"), "/var/lib/flecs/instances/abc/conf");
    assert_eq!(lore.instance_workdir_path("abc"), "/var/lib/flecs/instances/abc/work");
    assert_ne!(lore.instance_config_path("abc"), lore.instance_workdir_path("abc"));
    assert_ne!(lore.instance_workdir_path("abc"), lore.instance_workdir_path("abd"));
}

#[test]
fn update_keeps_ranges_apart_even_when_empty() {
    let mut mappings = vec![PortMapping::Range {
        from: PortRange { start: 20, end: 10 },
        to: PortRange { start: 20, end: 10 },
    }];
    let added = InstancePortMapping::update_port_mapping_vec(&mut mappings, PortMapping::Single(15, 15));
    assert_eq!(added, Ok(false));
    assert_eq!(mappings.len(), 2);
    for a in 0..mappings.len() {
        for b in 0..mappings.len() {
            if a != b {
                assert!(!mappings[a].do_host_ports_overlap(&mappings[b]));
            }
        }
    }
    let _ = TransportProtocol::Tcp;
}

fn conf(base: Option<&str>, app: Option<&str>) -> FlecsConfig {
    let mut c = FlecsConfig::default();
    c.base_path = base.map(str::to_string);
    c.app = app.map(|p| AppConfig {
        base_path: Some(p.to_string()),
    });
    c
}

#[test]
fn merged_configuration_prefers_earlier_settings() {
    let merged = merge_confs(vec![conf(None, Some("/apps")), conf(Some("/base"), Some("/other"))]).unwrap();
    assert_eq!(merged.base_path.as_deref(), Some("/base"));
    assert_eq!(merged.app.unwrap().base_path.as_deref(), Some("/apps"));
    assert_eq!(merge_confs(vec![]), None);
}

#[test]
fn lore_from_configuration_fills_defaults() {
    let lore = Lore::from_conf_with_defaults(conf(Some("/base"), None)).unwrap();
    assert_eq!(lore.base_path, "/base");
    assert_eq!(lore.app.base_path, "/base/apps");
    let mut c = conf(None, None);
    c.export = Some(ExportConfig {
        base_path: Some("/exp".to_string()),
        timeout: None,
    });
    let lore = Lore::from_conf_with_defaults(c).unwrap();
    assert_eq!(lore.base_path, "/var/lib/flecs/");
    assert_eq!(lore.export.base_path, "/exp");
    let mut c = conf(None, None);
    c.version = 2;
    assert_eq!(Lore::from_conf_with_defaults(c), Err(2));
    assert!(Lore::from_confs_with_defaults(vec![]).is_ok());
}

#[test]
fn docker_deployments_know_whether_they_are_default() {
    let d = DockerDeploymentImpl::new("d1".to_string(), "/run/d.sock".to_string());
    assert!(!d.is_default());
    assert_eq!(d.deployment_id(), "d1");
    let d = DockerDeploymentImpl::default();
    assert!(d.is_default());
    assert_eq!(d.id, "DefaultDockerDeploymentImpl");
    assert_eq!(d.path, "/var/run/docker.sock");
}

#[test]
fn deployments_compare_by_id_and_path_only() {
    let a = DockerDeploymentImpl::new("d".to_string(), "/s".to_string());
    let b = DockerDeploymentImpl::new_default("d".to_string(), "/s".to_string());
    assert!(a == b);
    assert!(a != DockerDeploymentImpl::new("e".to_string(), "/s".to_string()));
}

#[test]
fn serialized_deployments_know_their_id() {
    let compose = ComposeDeploymentImpl::default();
    assert_eq!(compose.deployment_id(), "DefaultComposeDeployment");
    assert_eq!(compose.docker_socket_path, "/var/run/docker.sock");
    assert!(compose.is_default());
    let stored = SerializedDeployment::Compose(compose);
    assert_eq!(stored.id(), "DefaultComposeDeployment");
    assert!(stored.is_default());
    let stored = SerializedDeployment::Docker(DockerDeploymentImpl::new(
        "d1".to_string(),
        "/s".to_string(),
    ));
    assert_eq!(stored.id(), "d1");
    assert!(!stored.is_default());
}

#[test]
fn network_and_tracing_settings_merge_like_the_others() {
    let mut first = FlecsConfig::default();
    first.tracing_filter = Some("info".to_string());
    let mut net = NetworkConfig::default();
    net.default_network_name = Some("flecs".to_string());
    first.network = Some(net);
    let mut second = FlecsConfig::default();
    second.tracing_filter = Some("debug".to_string());
    let mut net = NetworkConfig::default();
    net.default_network_name = Some("other".to_string());
    net.default_parent_adapter = Some("eth0".to_string());
    second.network = Some(net);
    first.merge(second);
    assert_eq!(first.tracing_filter.as_deref(), Some("info"));
    let net = first.network.unwrap();
    assert_eq!(net.default_network_name.as_deref(), Some("flecs"));
    assert_eq!(net.default_parent_adapter.as_deref(), Some("eth0"));
}
