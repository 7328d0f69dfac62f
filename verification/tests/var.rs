use flecs_core::lore::conf::{
    AppConfig, ConsoleConfig, DeploymentConfig, ExportConfig, FloxyConfig, ImportConfig,
    InstanceConfig, ManifestConfig, ProviderConfig, SecretConfig, SystemConfig,
};
use flecs_core::lore::default::CONFIG_PATH;
use flecs_core::lore::var::{
    base_path, config_path, flecsd_port, flecsd_socket_path, read_secs, VarError, VarMap,
    VarReader,
};
use flecs_core::num::IntErrorKind;

fn vars(pairs: &[(&str, &str)]) -> VarMap {
    VarMap {
        vars: pairs
            .iter()
            .map(|(name, value)| (name.to_string(), value.to_string()))
            .collect(),
    }
}

#[test]
fn var_map_reads_first_entry() {
    let reader = vars(&[("A", "1"), ("B", "2"), ("A", "3")]);
    assert_eq!(reader.read_var("A"), Some("1".to_string()));
    assert_eq!(reader.read_var("B"), Some("2".to_string()));
    assert_eq!(reader.read_var("C"), None);
}

#[test]
fn paths_from_vars() {
    let reader = vars(&[
        ("FLECS_CORE_BASE_PATH", "/base"),
        ("FLECS_CORE_CONFIG_PATH", "/conf.toml"),
        ("FLECS_CORE_SOCKET_PATH", "/run/sock"),
    ]);
    assert_eq!(base_path(&reader), Some("/base".to_string()));
    assert_eq!(config_path(&reader), Some("/conf.toml".to_string()));
    assert_eq!(flecsd_socket_path(&reader), Some("/run/sock".to_string()));
    let empty = vars(&[]);
    assert_eq!(base_path(&empty), None);
    assert_eq!(flecsd_socket_path(&empty), None);
}

#[test]
fn config_path_defaults() {
    assert_eq!(flecs_core::lore::config_path(&vars(&[])), CONFIG_PATH);
    assert_eq!(
        flecs_core::lore::config_path(&vars(&[("FLECS_CORE_CONFIG_PATH", "/x.toml")])),
        "/x.toml"
    );
}

#[test]
fn port_from_vars() {
    assert_eq!(flecsd_port(&vars(&[])), Ok(None));
    assert_eq!(flecsd_port(&vars(&[("FLECS_CORE_PORT", "8951")])), Ok(Some(8951)));
    assert_eq!(
        flecsd_port(&vars(&[("FLECS_CORE_PORT", "70000")])),
        Err(VarError::InvalidNumber {
            name: "FLECS_CORE_PORT".to_string(),
            kind: IntErrorKind::PosOverflow,
        })
    );
    assert_eq!(
        flecsd_port(&vars(&[("FLECS_CORE_PORT", "")])),
        Err(VarError::InvalidNumber {
            name: "FLECS_CORE_PORT".to_string(),
            kind: IntErrorKind::Empty,
        })
    );
}

#[test]
fn seconds_from_vars() {
    let reader = vars(&[("T", "18446744073709551615"), ("U", "18446744073709551616"), ("V", "1s")]);
    assert_eq!(read_secs(&reader, "T"), Ok(Some(u64::MAX)));
    assert!(matches!(
        read_secs(&reader, "U"),
        Err(VarError::InvalidNumber { kind: IntErrorKind::PosOverflow, .. })
    ));
    assert!(matches!(
        read_secs(&reader, "V"),
        Err(VarError::InvalidNumber { kind: IntErrorKind::InvalidDigit, .. })
    ));
}

#[test]
fn export_config_needs_both_settings() {
    let both = vars(&[
        ("FLECS_CORE_EXPORT_BASE_PATH", "/exports"),
        ("FLECS_CORE_EXPORT_TIMEOUT", "60"),
    ]);
    assert_eq!(
        ExportConfig::from_var_reader(&both),
        Ok(Some(ExportConfig {
            base_path: Some("/exports".to_string()),
            timeout: Some(60),
        }))
    );
    let only_path = vars(&[("FLECS_CORE_EXPORT_BASE_PATH", "/exports")]);
    assert_eq!(ExportConfig::from_var_reader(&only_path), Ok(None));
    let bad_timeout = vars(&[
        ("FLECS_CORE_EXPORT_BASE_PATH", "/exports"),
        ("FLECS_CORE_EXPORT_TIMEOUT", "soon"),
    ]);
    assert!(ExportConfig::from_var_reader(&bad_timeout).is_err());
}

#[test]
fn import_config_from_vars() {
    let both = vars(&[
        ("FLECS_CORE_IMPORT_BASE_PATH", "/imports"),
        ("FLECS_CORE_IMPORT_TIMEOUT", "5"),
    ]);
    assert_eq!(
        ImportConfig::from_var_reader(&both),
        Ok(Some(ImportConfig {
            base_path: Some("/imports".to_string()),
            timeout: Some(5),
        }))
    );
    assert_eq!(
        ImportConfig::from_var_reader(&vars(&[("FLECS_CORE_IMPORT_TIMEOUT", "5")])),
        Ok(None)
    );
}

#[test]
fn path_configs_from_vars() {
    let reader = vars(&[
        ("FLECS_CORE_FLOXY_BASE_PATH", "/floxy"),
        ("FLECS_CORE_INSTANCE_BASE_PATH", "/instances"),
        ("FLECS_CORE_APP_BASE_PATH", "/apps"),
        ("FLECS_CORE_DEPLOYMENT_BASE_PATH", "/deployments"),
        ("FLECS_CORE_MANIFEST_BASE_PATH", "/manifests"),
        ("FLECS_CORE_SECRET_BASE_PATH", "/secrets"),
        ("FLECS_CORE_PROVIDER_BASE_PATH", "/providers"),
        ("FLECS_CORE_SBOM_SPDX_PATH", "/sbom.json"),
    ]);
    assert_eq!(
        FloxyConfig::from_var_reader(&reader),
        Some(FloxyConfig {
            base_path: Some("/floxy".to_string()),
            config_path: None,
        })
    );
    assert_eq!(
        InstanceConfig::from_var_reader(&reader).unwrap().base_path,
        Some("/instances".to_string())
    );
    assert_eq!(
        AppConfig::from_var_reader(&reader).unwrap().base_path,
        Some("/apps".to_string())
    );
    assert_eq!(
        DeploymentConfig::from_var_reader(&reader).unwrap().base_path,
        Some("/deployments".to_string())
    );
    assert_eq!(
        ManifestConfig::from_var_reader(&reader).unwrap().base_path,
        Some("/manifests".to_string())
    );
    assert_eq!(
        SecretConfig::from_var_reader(&reader).unwrap().base_path,
        Some("/secrets".to_string())
    );
    assert_eq!(
        ProviderConfig::from_var_reader(&reader).unwrap().base_path,
        Some("/providers".to_string())
    );
    assert_eq!(
        SystemConfig::from_var_reader(&reader).unwrap().core_sbom_spdx_path,
        Some("/sbom.json".to_string())
    );
    let empty = vars(&[]);
    assert_eq!(FloxyConfig::from_var_reader(&empty), None);
    assert_eq!(InstanceConfig::from_var_reader(&empty), None);
    assert_eq!(SystemConfig::from_var_reader(&empty), None);
}

#[test]
fn console_config_from_vars() {
    assert_eq!(ConsoleConfig::from_var_reader(&vars(&[])), Ok(None));
    assert_eq!(
        ConsoleConfig::from_var_reader(&vars(&[("FLECS_CORE_CONSOLE_URI", "https://console.flecs.tech")])),
        Ok(Some(ConsoleConfig {
            uri: Some("https://console.flecs.tech".to_string()),
        }))
    );
    assert_eq!(
        ConsoleConfig::from_var_reader(&vars(&[("FLECS_CORE_CONSOLE_URI", "http://a b")])),
        Err(VarError::InvalidUri {
            name: "FLECS_CORE_CONSOLE_URI".to_string(),
        })
    );
}
