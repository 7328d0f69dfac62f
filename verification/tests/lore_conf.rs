use flecs_core::lore::conf::{
    AppConfig, ConsoleConfig, DeploymentConfig, ExportConfig, FloxyConfig, ImportConfig,
    InstanceConfig, ManifestConfig, Mergeable, SecretConfig, TriviallyMergeable,
};

#[derive(Debug, PartialEq, Eq)]
struct TestMergeable(u64);
impl Mergeable for TestMergeable {
    fn merged(self, other: Self) -> Self {
        TestMergeable(self.0 + other.0)
    }

    fn merge(&mut self, other: Self) {
        self.0 += other.0;
    }
}

#[test]
fn trivial_merge() {
    let mut current = Some(10);
    current.trivial_merge(Some(230));
    assert_eq!(current, Some(10));
    let mut current = Some(10);
    current.trivial_merge(None);
    assert_eq!(current, Some(10));
    let mut current = None;
    current.trivial_merge(Some(230));
    assert_eq!(current, Some(230));
    let mut current: Option<i32> = None;
    current.trivial_merge(None);
    assert!(current.is_none());
}

#[test]
fn merge() {
    let mut current = Some(TestMergeable(10));
    current.merge(Some(TestMergeable(230)));
    assert_eq!(current, Some(TestMergeable(240)));
    let mut current = Some(TestMergeable(10));
    current.merge(None);
    assert_eq!(current, Some(TestMergeable(10)));
    let mut current = None;
    current.merge(Some(TestMergeable(230)));
    assert_eq!(current, Some(TestMergeable(230)));
    let mut current: Option<TestMergeable> = None;
    current.merge(None);
    assert!(current.is_none());
}

#[test]
fn merge_app_config_base_path_both() {
    const BASE_PATH: &str = "/test/base/path";
    let mut current = AppConfig {
        base_path: Some(BASE_PATH.to_string()),
    };
    current.merge(AppConfig {
        base_path: Some("other".to_string()),
    });
    assert_eq!(current.base_path, Some(BASE_PATH.to_string()));
}

#[test]
fn merge_deployment_config_base_path_both() {
    const BASE_PATH: &str = "/test/base/path";
    let mut current = DeploymentConfig {
        base_path: Some(BASE_PATH.to_string()),
    };
    current.merge(DeploymentConfig {
        base_path: Some("other".to_string()),
    });
    assert_eq!(current.base_path, Some(BASE_PATH.to_string()));
}

#[test]
fn merge_manifest_config_base_path_both() {
    const BASE_PATH: &str = "/test/base/path";
    let mut current = ManifestConfig {
        base_path: Some(BASE_PATH.to_string()),
    };
    current.merge(ManifestConfig {
        base_path: Some("other".to_string()),
    });
    assert_eq!(current.base_path, Some(BASE_PATH.to_string()));
}

#[test]
fn merge_secret_config_base_path_both() {
    const BASE_PATH: &str = "/test/base/path";
    let mut current = SecretConfig {
        base_path: Some(BASE_PATH.to_string()),
    };
    current.merge(SecretConfig {
        base_path: Some("other".to_string()),
    });
    assert_eq!(current.base_path, Some(BASE_PATH.to_string()));
}

#[test]
fn merge_import_config_base_path_both() {
    const BASE_PATH: &str = "/test/base/path";
    let mut current = ImportConfig {
        base_path: Some(BASE_PATH.to_string()),
        ..ImportConfig::default()
    };
    current.merge(ImportConfig {
        base_path: Some("other".to_string()),
        ..ImportConfig::default()
    });
    assert_eq!(current.base_path, Some(BASE_PATH.to_string()));
}

#[test]
fn merge_import_config_timeout_both() {
    const TIMEOUT: u64 = 1234;
    let mut current = ImportConfig {
        timeout: Some(TIMEOUT),
        ..ImportConfig::default()
    };
    current.merge(ImportConfig {
        timeout: Some(5678),
        ..ImportConfig::default()
    });
    assert_eq!(current.timeout, Some(TIMEOUT));
}

#[test]
fn merge_export_config_base_path_both() {
    const BASE_PATH: &str = "/test/base/path";
    let mut current = ExportConfig {
        base_path: Some(BASE_PATH.to_string()),
        ..ExportConfig::default()
    };
    current.merge(ExportConfig {
        base_path: Some("other".to_string()),
        ..ExportConfig::default()
    });
    assert_eq!(current.base_path, Some(BASE_PATH.to_string()));
}

#[test]
fn merge_export_config_timeout_both() {
    const TIMEOUT: u64 = 1234;
    let mut current = ExportConfig {
        timeout: Some(TIMEOUT),
        ..ExportConfig::default()
    };
    current.merge(ExportConfig {
        timeout: Some(5678),
        ..ExportConfig::default()
    });
    assert_eq!(current.timeout, Some(TIMEOUT));
}

#[test]
fn merge_floxy_config_base_path_both() {
    const BASE_PATH: &str = "/test/base/path";
    let mut current = FloxyConfig {
        base_path: Some(BASE_PATH.to_string()),
        ..FloxyConfig::default()
    };
    current.merge(FloxyConfig {
        base_path: Some("other".to_string()),
        ..FloxyConfig::default()
    });
    assert_eq!(current.base_path, Some(BASE_PATH.to_string()));
}

#[test]
fn merge_floxy_config_config_path_both() {
    const CONFIG_PATH: &str = "/test/config/path.conf";
    let mut current = FloxyConfig {
        config_path: Some(CONFIG_PATH.to_string()),
        ..FloxyConfig::default()
    };
    current.merge(FloxyConfig {
        config_path: Some("other".to_string()),
        ..FloxyConfig::default()
    });
    assert_eq!(current.config_path, Some(CONFIG_PATH.to_string()));
}

#[test]
fn merge_instance_config_base_path_both() {
    const BASE_PATH: &str = "/test/base/path";
    let mut current = InstanceConfig {
        base_path: Some(BASE_PATH.to_string()),
    };
    current.merge(InstanceConfig {
        base_path: Some("other".to_string()),
    });
    assert_eq!(current.base_path, Some(BASE_PATH.to_string()));
}

#[test]
fn merge_console_config_uri_both() {
    const URI: &str = "http://some.uri";
    let mut current = ConsoleConfig {
        uri: Some(URI.to_string()),
    };
    current.merge(ConsoleConfig {
        uri: Some("other".to_string()),
    });
    assert_eq!(current.uri, Some(URI.to_string()));
}
