use flecs_core::instance::id::InstanceId;
use flecs_core::lore::conf::{
    ExportConfig, FloxyConfig, ImportConfig, InstanceConfig, Mergeable, ProviderConfig,
};
use flecs_core::lore::default::{sbom_spdx_file_path_path, EXPORT_TIMEOUT};
use flecs_core::lore::{ExportLore, FloxyLore, ImportLore, InstanceLore, ProviderLore};

#[test]
fn floxy_paths() {
    let floxy = FloxyLore {
        base_path: "/var/lib/flecs/floxy".to_string(),
        config_path: "/etc/nginx/floxy.conf".to_string(),
    };
    assert_eq!(floxy.server_config_path(), "/var/lib/flecs/floxy/servers");
    assert_eq!(floxy.instance_config_path(), "/var/lib/flecs/floxy/instances");
    assert_eq!(
        FloxyLore::instance_editor_location(InstanceId::new(0x1a2b), 8080),
        "/v2/instances/00001a2b/editor/8080"
    );
}

#[test]
fn instance_paths() {
    let lore = InstanceLore {
        base_path: "/base/".to_string(),
    };
    assert_eq!(lore.instance_config_path("0000abcd"), "/base/0000abcd/conf");
    assert_eq!(lore.instance_workdir_path("0000abcd"), "/base/0000abcd/work");
}

#[test]
fn absolute_directory_names_replace_the_base() {
    let lore = ProviderLore::from_conf_with_defaults(ProviderConfig::default(), "");
    assert_eq!(lore.base_path, "providers");
    let lore = InstanceLore::from_conf_with_defaults(InstanceConfig::default(), "/base/");
    assert_eq!(lore.base_path, "/base/instances");
}

#[test]
fn config_from_lore_gives_the_lore_back() {
    let export = ExportLore {
        base_path: "/exports".to_string(),
        timeout: 30,
    };
    let back = ExportLore::from_conf_with_defaults(ExportConfig::from(&export), "/other");
    assert_eq!(back, export);
    let import = ImportLore {
        base_path: "/imports".to_string(),
        timeout: 31,
    };
    let back = ImportLore::from_conf_with_defaults(ImportConfig::from(&import), "/other");
    assert_eq!(back, import);
    let floxy = FloxyLore {
        base_path: "/floxy".to_string(),
        config_path: "/floxy.conf".to_string(),
    };
    let back = FloxyLore::from_conf_with_defaults(FloxyConfig::from(&floxy), "/other");
    assert_eq!(back, floxy);
}

#[test]
fn default_export_timeout_is_practically_unlimited() {
    assert_eq!(EXPORT_TIMEOUT, i64::MAX as u64);
}

#[test]
fn sbom_path() {
    assert_eq!(sbom_spdx_file_path_path(), "/usr/local/lib/flecs/sbom/sbom.spdx.json");
}

#[test]
fn merged_settings_then_defaults() {
    let mut first = ExportConfig {
        base_path: None,
        timeout: Some(5),
    };
    first.merge(ExportConfig {
        base_path: Some("/second".to_string()),
        timeout: Some(6),
    });
    let lore = ExportLore::from_conf_with_defaults(first, "/base");
    assert_eq!(lore.base_path, "/second");
    assert_eq!(lore.timeout, 5);
    let lore = ExportLore::from_conf_with_defaults(ExportConfig::default(), "/base");
    assert_eq!(lore.base_path, "/base/export");
    assert_eq!(lore.timeout, EXPORT_TIMEOUT);
}
