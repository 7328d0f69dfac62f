use flecs_core::lore::conf::{
    AppConfig, DeploymentConfig, ExportConfig, FloxyConfig, ImportConfig, InstanceConfig,
    ManifestConfig, SecretConfig,
};
use flecs_core::lore::default::{
    APP_BASE_DIRECTORY_NAME, DEPLOYMENT_BASE_DIRECTORY_NAME, EXPORT_BASE_DIRECTORY_NAME,
    FLOXY_BASE_DIRECTORY_NAME, FLOXY_CONFIG_PATH, IMPORT_BASE_DIRECTORY_NAME, IMPORT_TIMEOUT,
    INSTANCE_BASE_DIRECTORY_NAME, MANIFEST_BASE_DIRECTORY_NAME, SECRET_BASE_DIRECTORY_NAME,
};
use flecs_core::lore::{
    AppLore, DeploymentLore, ExportLore, FloxyLore, ImportLore, InstanceLore, ManifestLore,
    SecretLore,
};
use std::path::Path;

fn joined(base: &str, name: &str) -> String {
    Path::new(base).join(name).to_string_lossy().to_string()
}

#[test]
fn export_lore_from_conf_base_path() {
    let base_path = "/some/base/path".to_string();
    let conf = ExportConfig {
        base_path: Some(base_path.clone()),
        ..ExportConfig::default()
    };
    assert_eq!(
        ExportLore::from_conf_with_defaults(conf, "/").base_path,
        base_path
    );
}

#[test]
fn export_lore_from_conf_base_path_default() {
    let base_path = "/some/base/path".to_string();
    let conf = ExportConfig::default();
    assert_eq!(
        ExportLore::from_conf_with_defaults(conf, base_path.as_str()).base_path,
        joined(&base_path, EXPORT_BASE_DIRECTORY_NAME)
    );
}

#[test]
fn export_lore_from_conf_timeout() {
    const TIMEOUT: u64 = 1234;
    let conf = ExportConfig {
        timeout: Some(TIMEOUT),
        ..ExportConfig::default()
    };
    assert_eq!(
        ExportLore::from_conf_with_defaults(conf, "/").timeout,
        TIMEOUT
    );
}

#[test]
fn export_lore_from_conf_timeout_default() {
    let conf = ExportConfig::default();
    assert_eq!(
        ExportLore::from_conf_with_defaults(conf, "/").timeout,
        IMPORT_TIMEOUT,
    );
}

#[test]
fn import_lore_from_conf_base_path() {
    let base_path = "/some/base/path".to_string();
    let conf = ImportConfig {
        base_path: Some(base_path.clone()),
        ..ImportConfig::default()
    };
    assert_eq!(
        ImportLore::from_conf_with_defaults(conf, "/").base_path,
        base_path
    );
}

#[test]
fn import_lore_from_conf_base_path_default() {
    let base_path = "/some/base/path".to_string();
    let conf = ImportConfig::default();
    assert_eq!(
        ImportLore::from_conf_with_defaults(conf, base_path.as_str()).base_path,
        joined(&base_path, IMPORT_BASE_DIRECTORY_NAME)
    );
}

#[test]
fn import_lore_from_conf_timeout() {
    const TIMEOUT: u64 = 1234;
    let conf = ImportConfig {
        timeout: Some(TIMEOUT),
        ..ImportConfig::default()
    };
    assert_eq!(
        ImportLore::from_conf_with_defaults(conf, "/").timeout,
        TIMEOUT
    );
}

#[test]
fn import_lore_from_conf_timeout_default() {
    let conf = ImportConfig::default();
    assert_eq!(
        ImportLore::from_conf_with_defaults(conf, "/").timeout,
        IMPORT_TIMEOUT,
    );
}

#[test]
fn floxy_lore_from_conf_base_path() {
    let base_path = "/some/base/path".to_string();
    let conf = FloxyConfig {
        base_path: Some(base_path.clone()),
        ..FloxyConfig::default()
    };
    assert_eq!(
        FloxyLore::from_conf_with_defaults(conf, "/").base_path,
        base_path
    );
}

#[test]
fn floxy_lore_from_conf_base_path_default() {
    let base_path = "/some/base/path".to_string();
    let conf = FloxyConfig::default();
    assert_eq!(
        FloxyLore::from_conf_with_defaults(conf, base_path.as_str()).base_path,
        joined(&base_path, FLOXY_BASE_DIRECTORY_NAME)
    );
}

#[test]
fn floxy_lore_from_conf_config_path() {
    let config_path = "/some/config/path.conf".to_string();
    let conf = FloxyConfig {
        config_path: Some(config_path.clone()),
        ..FloxyConfig::default()
    };
    assert_eq!(
        FloxyLore::from_conf_with_defaults(conf, "/").config_path,
        config_path
    );
}

#[test]
fn floxy_lore_from_conf_config_path_default() {
    let conf = FloxyConfig::default();
    assert_eq!(
        FloxyLore::from_conf_with_defaults(conf, "/").config_path,
        FLOXY_CONFIG_PATH
    );
}

#[test]
fn app_lore_from_conf_base_path() {
    let base_path = "/some/base/path".to_string();
    let conf = AppConfig {
        base_path: Some(base_path.clone()),
    };
    assert_eq!(
        AppLore::from_conf_with_defaults(conf, "/").base_path,
        base_path
    );
}

#[test]
fn app_lore_from_conf_base_path_default() {
    let base_path = "/some/base/path".to_string();
    let conf = AppConfig::default();
    assert_eq!(
        AppLore::from_conf_with_defaults(conf, base_path.as_str()).base_path,
        joined(&base_path, APP_BASE_DIRECTORY_NAME)
    );
}

#[test]
fn deployment_lore_from_conf_base_path() {
    let base_path = "/some/base/path".to_string();
    let conf = DeploymentConfig {
        base_path: Some(base_path.clone()),
    };
    assert_eq!(
        DeploymentLore::from_conf_with_defaults(conf, "/").base_path,
        base_path
    );
}

#[test]
fn deployment_lore_from_conf_base_path_default() {
    let base_path = "/some/base/path".to_string();
    let conf = DeploymentConfig::default();
    assert_eq!(
        DeploymentLore::from_conf_with_defaults(conf, base_path.as_str()).base_path,
        joined(&base_path, DEPLOYMENT_BASE_DIRECTORY_NAME)
    );
}

#[test]
fn manifest_lore_from_conf_base_path() {
    let base_path = "/some/base/path".to_string();
    let conf = ManifestConfig {
        base_path: Some(base_path.clone()),
    };
    assert_eq!(
        ManifestLore::from_conf_with_defaults(conf, "/").base_path,
        base_path
    );
}

#[test]
fn manifest_lore_from_conf_base_path_default() {
    let base_path = "/some/base/path".to_string();
    let conf = ManifestConfig::default();
    assert_eq!(
        ManifestLore::from_conf_with_defaults(conf, base_path.as_str()).base_path,
        joined(&base_path, MANIFEST_BASE_DIRECTORY_NAME)
    );
}

#[test]
fn secret_lore_from_conf_base_path() {
    let base_path = "/some/base/path".to_string();
    let conf = SecretConfig {
        base_path: Some(base_path.clone()),
    };
    assert_eq!(
        SecretLore::from_conf_with_defaults(conf, "/").base_path,
        base_path
    );
}

#[test]
fn secret_lore_from_conf_base_path_default() {
    let base_path = "/some/base/path".to_string();
    let conf = SecretConfig::default();
    assert_eq!(
        SecretLore::from_conf_with_defaults(conf, base_path.as_str()).base_path,
        joined(&base_path, SECRET_BASE_DIRECTORY_NAME)
    );
}

#[test]
fn instance_lore_from_conf_base_path() {
    let base_path = "/some/base/path".to_string();
    let conf = InstanceConfig {
        base_path: Some(base_path.clone()),
    };
    assert_eq!(
        InstanceLore::from_conf_with_defaults(conf, "/").base_path,
        base_path
    );
}

#[test]
fn instance_lore_from_conf_base_path_default() {
    let base_path = "/some/base/path".to_string();
    let conf = InstanceConfig::default();
    assert_eq!(
        InstanceLore::from_conf_with_defaults(conf, base_path.as_str()).base_path,
        joined(&base_path, INSTANCE_BASE_DIRECTORY_NAME)
    );
}
