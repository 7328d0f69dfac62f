//! Configuration of the daemon: what configuration files and the environment set, merged
//! and completed with defaults.
pub mod conf;
pub mod default;
pub mod var;

use crate::instance::id::{instance_id_text, InstanceId};
use crate::lore::conf::{
    merge_confs, merged_all, AppConfig, DeploymentConfig, ExportConfig, FlecsConfig,
    FloxyConfig, ImportConfig, InstanceConfig, ManifestConfig, ProviderConfig, SecretConfig,
};
use crate::lore::default::{
    APP_BASE_DIRECTORY_NAME, BASE_PATH, CONFIG_PATH, DEPLOYMENT_BASE_DIRECTORY_NAME,
    EXPORT_BASE_DIRECTORY_NAME, EXPORT_TIMEOUT, FLOXY_BASE_DIRECTORY_NAME, FLOXY_CONFIG_PATH,
    FLOXY_INSTANCE_CONFIGS_DIR_NAME, FLOXY_SERVER_CONFIGS_DIR_NAME, IMPORT_BASE_DIRECTORY_NAME,
    IMPORT_TIMEOUT, INSTANCE_BASE_DIRECTORY_NAME, MANIFEST_BASE_DIRECTORY_NAME,
    PROVIDER_BASE_DIRECTORY_NAME, SECRET_BASE_DIRECTORY_NAME,
};
use crate::lore::conf::TriviallyMergeable;
use crate::lore::var::VarReader;
use crate::num::{decimal_chars, decimal_spec, hex_fixed_chars};
use crate::text::{chars_of, concat_chars, join_path, join_path_spec, string_from, string_of};
use vstd::prelude::*;

verus! {

/// The configuration file to read: the one the environment names, else the default.
pub fn config_path<R: VarReader>(reader: &R) -> (res: String)
    ensures
        res@ == match reader.var_text(var::CONFIG_PATH@) {
            Some(p) => p,
            None => CONFIG_PATH@,
        },
{
    match var::config_path(reader) {
        Some(p) => p,
        None => string_from(CONFIG_PATH),
    }
}

/// The text of an optional path that falls back to `default`.
pub open spec fn path_or(p: Option<String>, default: Seq<char>) -> Seq<char> {
    match p {
        Some(p) => p@,
        None => default,
    }
}

fn path_or_join(p: Option<String>, base: &str, name: &str) -> (res: String)
    ensures
        res@ == path_or(p, join_path_spec(base@, name@)),
{
    match p {
        Some(p) => p,
        None => join_path(base, name),
    }
}

/// Where exports are written and how many seconds they may take.
#[derive(Debug, Clone, PartialEq, Eq)]
pub struct ExportLore {
    pub base_path: String,
    pub timeout: u64,
}

/// Where imports are read from and how many seconds they may take.
#[derive(Debug, Clone, PartialEq, Eq)]
pub struct ImportLore {
    pub base_path: String,
    pub timeout: u64,
}

/// The directory and the main configuration file of the reverse proxy.
#[derive(Debug, Clone, PartialEq, Eq)]
pub struct FloxyLore {
    pub base_path: String,
    pub config_path: String,
}

/// The directory of instances.
#[derive(Debug, Clone, PartialEq, Eq)]
pub struct InstanceLore {
    pub base_path: String,
}

/// The directory of apps.
#[derive(Debug, Clone, PartialEq, Eq)]
pub struct AppLore {
    pub base_path: String,
}

/// The directory of deployments.
#[derive(Debug, Clone, PartialEq, Eq)]
pub struct DeploymentLore {
    pub base_path: String,
}

/// The directory of manifests.
#[derive(Debug, Clone, PartialEq, Eq)]
pub struct ManifestLore {
    pub base_path: String,
}

/// The directory of secrets.
#[derive(Debug, Clone, PartialEq, Eq)]
pub struct SecretLore {
    pub base_path: String,
}

/// The directory of providers.
#[derive(Debug, Clone, PartialEq, Eq)]
pub struct ProviderLore {
    pub base_path: String,
}

impl ExportLore {
    /// The export settings: what `conf` sets, else the `export` directory below `base_path`
    /// and the default timeout.
    pub fn from_conf_with_defaults(conf: ExportConfig, base_path: &str) -> (res: Self)
        ensures
            res.base_path@ == path_or(
                conf.base_path,
                join_path_spec(base_path@, EXPORT_BASE_DIRECTORY_NAME@),
            ),
            res.timeout == match conf.timeout {
                Some(t) => t,
                None => EXPORT_TIMEOUT,
            },
    {
        let timeout = match conf.timeout {
            Some(t) => t,
            None => EXPORT_TIMEOUT,
        };
        ExportLore {
            base_path: path_or_join(conf.base_path, base_path, EXPORT_BASE_DIRECTORY_NAME),
            timeout,
        }
    }
}

impl ImportLore {
    /// The import settings: what `conf` sets, else the `import` directory below `base_path`
    /// and the default timeout.
    pub fn from_conf_with_defaults(conf: ImportConfig, base_path: &str) -> (res: Self)
        ensures
            res.base_path@ == path_or(
                conf.base_path,
                join_path_spec(base_path@, IMPORT_BASE_DIRECTORY_NAME@),
            ),
            res.timeout == match conf.timeout {
                Some(t) => t,
                None => IMPORT_TIMEOUT,
            },
    {
        let timeout = match conf.timeout {
            Some(t) => t,
            None => IMPORT_TIMEOUT,
        };
        ImportLore {
            base_path: path_or_join(conf.base_path, base_path, IMPORT_BASE_DIRECTORY_NAME),
            timeout,
        }
    }
}

/// The location under which the editor of an instance is served:
/// `/v2/instances/<id>/editor/<port>`.
pub open spec fn editor_location_spec(instance_id: InstanceId, port: u16) -> Seq<char> {
    seq!['/', 'v', '2', '/', 'i', 'n', 's', 't', 'a', 'n', 'c', 'e', 's', '/'] + instance_id_text(
        instance_id.value,
    ) + seq!['/', 'e', 'd', 'i', 't', 'o', 'r', '/'] + decimal_spec(port as nat)
}

impl FloxyLore {
    /// The reverse proxy settings: what `conf` sets, else the `floxy` directory below
    /// `base_path` and the default configuration file.
    pub fn from_conf_with_defaults(conf: FloxyConfig, base_path: &str) -> (res: Self)
        ensures
            res.base_path@ == path_or(
                conf.base_path,
                join_path_spec(base_path@, FLOXY_BASE_DIRECTORY_NAME@),
            ),
            res.config_path@ == path_or(conf.config_path, FLOXY_CONFIG_PATH@),
    {
        let config_path = match conf.config_path {
            Some(p) => p,
            None => string_from(FLOXY_CONFIG_PATH),
        };
        FloxyLore {
            base_path: path_or_join(conf.base_path, base_path, FLOXY_BASE_DIRECTORY_NAME),
            config_path,
        }
    }

    /// The location under which the editor of an instance listening on `port` is served.
    pub fn instance_editor_location(instance_id: InstanceId, port: u16) -> (res: String)
        ensures
            res@ == editor_location_spec(instance_id, port),
    {
        let head = chars_of("/v2/instances/");
        let mid = chars_of("/editor/");
        proof {
            reveal_strlit("/v2/instances/");
            reveal_strlit("/editor/");
        }
        let id = hex_fixed_chars(instance_id.value as u64, 8);
        let port_text = decimal_chars(port as u64);
        let res = concat_chars(&concat_chars(&concat_chars(&head, &id), &mid), &port_text);
        assert(res@ =~= editor_location_spec(instance_id, port));
        string_of(&res)
    }

    /// The directory of the server configurations of the reverse proxy.
    pub fn server_config_path(&self) -> (res: String)
        ensures
            res@ == join_path_spec(self.base_path@, FLOXY_SERVER_CONFIGS_DIR_NAME@),
    {
        join_path(self.base_path.as_str(), FLOXY_SERVER_CONFIGS_DIR_NAME)
    }

    /// The directory of the instance configurations of the reverse proxy.
    pub fn instance_config_path(&self) -> (res: String)
        ensures
            res@ == join_path_spec(self.base_path@, FLOXY_INSTANCE_CONFIGS_DIR_NAME@),
    {
        join_path(self.base_path.as_str(), FLOXY_INSTANCE_CONFIGS_DIR_NAME)
    }
}

impl InstanceLore {
    /// The instance settings: what `conf` sets, else the `instances` directory below
    /// `base_path`.
    pub fn from_conf_with_defaults(conf: InstanceConfig, base_path: &str) -> (res: Self)
        ensures
            res.base_path@ == path_or(
                conf.base_path,
                join_path_spec(base_path@, INSTANCE_BASE_DIRECTORY_NAME@),
            ),
    {
        InstanceLore {
            base_path: path_or_join(conf.base_path, base_path, INSTANCE_BASE_DIRECTORY_NAME),
        }
    }

    /// The directory of the configuration files of an instance: `<base>/<id>/conf`.
    pub fn instance_config_path(&self, instance_id: &str) -> (res: String)
        ensures
            res@ == join_path_spec(
                join_path_spec(self.base_path@, instance_id@),
                seq!['c', 'o', 'n', 'f'],
            ),
    {
        let dir = join_path(self.base_path.as_str(), instance_id);
        proof {
            reveal_strlit("conf");
        }
        join_path(dir.as_str(), "conf")
    }

    /// The working directory of an instance: `<base>/<id>/work`.
    pub fn instance_workdir_path(&self, instance_id: &str) -> (res: String)
        ensures
            res@ == join_path_spec(
                join_path_spec(self.base_path@, instance_id@),
                seq!['w', 'o', 'r', 'k'],
            ),
    {
        let dir = join_path(self.base_path.as_str(), instance_id);
        proof {
            reveal_strlit("work");
        }
        join_path(dir.as_str(), "work")
    }
}

impl AppLore {
    /// The app settings: what `conf` sets, else the `apps` directory below `base_path`.
    pub fn from_conf_with_defaults(conf: AppConfig, base_path: &str) -> (res: Self)
        ensures
            res.base_path@ == path_or(
                conf.base_path,
                join_path_spec(base_path@, APP_BASE_DIRECTORY_NAME@),
            ),
    {
        AppLore { base_path: path_or_join(conf.base_path, base_path, APP_BASE_DIRECTORY_NAME) }
    }
}

impl DeploymentLore {
    /// The deployment settings: what `conf` sets, else the `deployments` directory below
    /// `base_path`.
    pub fn from_conf_with_defaults(conf: DeploymentConfig, base_path: &str) -> (res: Self)
        ensures
            res.base_path@ == path_or(
                conf.base_path,
                join_path_spec(base_path@, DEPLOYMENT_BASE_DIRECTORY_NAME@),
            ),
    {
        DeploymentLore {
            base_path: path_or_join(conf.base_path, base_path, DEPLOYMENT_BASE_DIRECTORY_NAME),
        }
    }
}

impl ManifestLore {
    /// The manifest settings: what `conf` sets, else the `manifests` directory below
    /// `base_path`.
    pub fn from_conf_with_defaults(conf: ManifestConfig, base_path: &str) -> (res: Self)
        ensures
            res.base_path@ == path_or(
                conf.base_path,
                join_path_spec(base_path@, MANIFEST_BASE_DIRECTORY_NAME@),
            ),
    {
        ManifestLore {
            base_path: path_or_join(conf.base_path, base_path, MANIFEST_BASE_DIRECTORY_NAME),
        }
    }
}

impl SecretLore {
    /// The secret settings: what `conf` sets, else the `device` directory below `base_path`.
    pub fn from_conf_with_defaults(conf: SecretConfig, base_path: &str) -> (res: Self)
        ensures
            res.base_path@ == path_or(
                conf.base_path,
                join_path_spec(base_path@, SECRET_BASE_DIRECTORY_NAME@),
            ),
    {
        SecretLore {
            base_path: path_or_join(conf.base_path, base_path, SECRET_BASE_DIRECTORY_NAME),
        }
    }
}

impl ProviderLore {
    /// The provider settings: what `conf` sets, else the `providers` directory below
    /// `base_path`.
    pub fn from_conf_with_defaults(conf: ProviderConfig, base_path: &str) -> (res: Self)
        ensures
            res.base_path@ == path_or(
                conf.base_path,
                join_path_spec(base_path@, PROVIDER_BASE_DIRECTORY_NAME@),
            ),
    {
        ProviderLore {
            base_path: path_or_join(conf.base_path, base_path, PROVIDER_BASE_DIRECTORY_NAME),
        }
    }
}


impl ExportConfig {
    /// The configuration that sets every export setting of `value`.
    pub fn from(value: &ExportLore) -> (res: Self)
        ensures
            res.base_path == Some(value.base_path),
            res.timeout == Some(value.timeout),
    {
        ExportConfig { base_path: Some(value.base_path.clone()), timeout: Some(value.timeout) }
    }
}

impl ImportConfig {
    /// The configuration that sets every import setting of `value`.
    pub fn from(value: &ImportLore) -> (res: Self)
        ensures
            res.base_path == Some(value.base_path),
            res.timeout == Some(value.timeout),
    {
        ImportConfig { base_path: Some(value.base_path.clone()), timeout: Some(value.timeout) }
    }
}

impl FloxyConfig {
    /// The configuration that sets every reverse proxy setting of `value`.
    pub fn from(value: &FloxyLore) -> (res: Self)
        ensures
            res.base_path == Some(value.base_path),
            res.config_path == Some(value.config_path),
    {
        FloxyConfig {
            base_path: Some(value.base_path.clone()),
            config_path: Some(value.config_path.clone()),
        }
    }
}

impl InstanceConfig {
    /// The configuration that sets the directory of `value`.
    pub fn from(value: &InstanceLore) -> (res: Self)
        ensures
            res.base_path == Some(value.base_path),
    {
        InstanceConfig { base_path: Some(value.base_path.clone()) }
    }
}

impl AppConfig {
    /// The configuration that sets the directory of `value`.
    pub fn from(value: &AppLore) -> (res: Self)
        ensures
            res.base_path == Some(value.base_path),
    {
        AppConfig { base_path: Some(value.base_path.clone()) }
    }
}

impl DeploymentConfig {
    /// The configuration that sets the directory of `value`.
    pub fn from(value: &DeploymentLore) -> (res: Self)
        ensures
            res.base_path == Some(value.base_path),
    {
        DeploymentConfig { base_path: Some(value.base_path.clone()) }
    }
}

impl ManifestConfig {
    /// The configuration that sets the directory of `value`.
    pub fn from(value: &ManifestLore) -> (res: Self)
        ensures
            res.base_path == Some(value.base_path),
    {
        ManifestConfig { base_path: Some(value.base_path.clone()) }
    }
}

impl SecretConfig {
    /// The configuration that sets the directory of `value`.
    pub fn from(value: &SecretLore) -> (res: Self)
        ensures
            res.base_path == Some(value.base_path),
    {
        SecretConfig { base_path: Some(value.base_path.clone()) }
    }
}

impl ProviderConfig {
    /// The configuration that sets the directory of `value`.
    pub fn from(value: &ProviderLore) -> (res: Self)
        ensures
            res.base_path == Some(value.base_path),
    {
        ProviderConfig { base_path: Some(value.base_path.clone()) }
    }
}

/// Merging two configurations and then completing with defaults gives a setting of the
/// first where it has one, else one of the second, else the default.
pub proof fn law_merge_then_defaults(first: Option<String>, second: Option<String>, default: Seq<char>)
    ensures
        path_or(first.trivially_merged(second), default) == path_or(first, path_or(second, default)),
{
}

/// A configuration taken from settings gives those settings back, whatever the base
/// directory and the defaults: completing with defaults leaves a set path alone and fills
/// only an open one.
pub proof fn law_set_path_wins(set: String, open: Option<String>, default: Seq<char>)
    ensures
        path_or(Some(set), default) == set@,
        open is None ==> path_or(open, default) == default,
{
}

/// The settings of the daemon, every one given: the base directory and the settings of
/// each part.
#[derive(Debug, Clone, PartialEq, Eq)]
pub struct Lore {
    pub base_path: String,
    pub export: ExportLore,
    pub import: ImportLore,
    pub floxy: FloxyLore,
    pub instance: InstanceLore,
    pub app: AppLore,
    pub deployment: DeploymentLore,
    pub manifest: ManifestLore,
    pub secret: SecretLore,
}

/// The base directory `conf` sets, else the default one.
pub open spec fn base_path_of(conf: FlecsConfig) -> Seq<char> {
    path_or(conf.base_path, BASE_PATH@)
}

/// A directory setting of an optional part of the configuration.
pub open spec fn part_path<T>(part: Option<T>, path: spec_fn(T) -> Option<String>) -> Option<String> {
    match part {
        Some(c) => path(c),
        None => None,
    }
}

impl Lore {
    /// The settings of the daemon from one configuration, defaults filling what it leaves
    /// open; only the first version of the configuration format is understood, any other is
    /// the error.
    pub fn from_conf_with_defaults(conf: FlecsConfig) -> (res: Result<Self, u8>)
        ensures
            conf.version != 1 ==> res == Err::<Lore, u8>(conf.version),
            conf.version == 1 ==> res is Ok,
            res matches Ok(l) ==> {
                let base = base_path_of(conf);
                &&& l.base_path@ == base
                &&& l.export.base_path@ == path_or(
                    part_path(conf.export, |c: ExportConfig| c.base_path),
                    join_path_spec(base, EXPORT_BASE_DIRECTORY_NAME@),
                )
                &&& l.export.timeout == match conf.export {
                    Some(c) => match c.timeout {
                        Some(t) => t,
                        None => EXPORT_TIMEOUT,
                    },
                    None => EXPORT_TIMEOUT,
                }
                &&& l.import.base_path@ == path_or(
                    part_path(conf.import, |c: ImportConfig| c.base_path),
                    join_path_spec(base, IMPORT_BASE_DIRECTORY_NAME@),
                )
                &&& l.import.timeout == match conf.import {
                    Some(c) => match c.timeout {
                        Some(t) => t,
                        None => IMPORT_TIMEOUT,
                    },
                    None => IMPORT_TIMEOUT,
                }
                &&& l.floxy.base_path@ == path_or(
                    part_path(conf.floxy, |c: FloxyConfig| c.base_path),
                    join_path_spec(base, FLOXY_BASE_DIRECTORY_NAME@),
                )
                &&& l.floxy.config_path@ == path_or(
                    part_path(conf.floxy, |c: FloxyConfig| c.config_path),
                    FLOXY_CONFIG_PATH@,
                )
                &&& l.instance.base_path@ == path_or(
                    part_path(conf.instance, |c: InstanceConfig| c.base_path),
                    join_path_spec(base, INSTANCE_BASE_DIRECTORY_NAME@),
                )
                &&& l.app.base_path@ == path_or(
                    part_path(conf.app, |c: AppConfig| c.base_path),
                    join_path_spec(base, APP_BASE_DIRECTORY_NAME@),
                )
                &&& l.deployment.base_path@ == path_or(
                    part_path(conf.deployment, |c: DeploymentConfig| c.base_path),
                    join_path_spec(base, DEPLOYMENT_BASE_DIRECTORY_NAME@),
                )
                &&& l.manifest.base_path@ == path_or(
                    part_path(conf.manifest, |c: ManifestConfig| c.base_path),
                    join_path_spec(base, MANIFEST_BASE_DIRECTORY_NAME@),
                )
                &&& l.secret.base_path@ == path_or(
                    part_path(conf.secret, |c: SecretConfig| c.base_path),
                    join_path_spec(base, SECRET_BASE_DIRECTORY_NAME@),
                )
            },
    {
        if conf.version != 1 {
            return Err(conf.version);
        }
        let base_path = match conf.base_path {
            Some(p) => p,
            None => string_from(BASE_PATH),
        };
        let base = base_path.as_str();
        let export = match conf.export {
            Some(c) => c,
            None => ExportConfig::default(),
        };
        let import = match conf.import {
            Some(c) => c,
            None => ImportConfig::default(),
        };
        let floxy = match conf.floxy {
            Some(c) => c,
            None => FloxyConfig::default(),
        };
        let instance = match conf.instance {
            Some(c) => c,
            None => InstanceConfig::default(),
        };
        let app = match conf.app {
            Some(c) => c,
            None => AppConfig::default(),
        };
        let deployment = match conf.deployment {
            Some(c) => c,
            None => DeploymentConfig::default(),
        };
        let manifest = match conf.manifest {
            Some(c) => c,
            None => ManifestConfig::default(),
        };
        let secret = match conf.secret {
            Some(c) => c,
            None => SecretConfig::default(),
        };
        let lore = Lore {
            export: ExportLore::from_conf_with_defaults(export, base),
            import: ImportLore::from_conf_with_defaults(import, base),
            floxy: FloxyLore::from_conf_with_defaults(floxy, base),
            instance: InstanceLore::from_conf_with_defaults(instance, base),
            app: AppLore::from_conf_with_defaults(app, base),
            deployment: DeploymentLore::from_conf_with_defaults(deployment, base),
            manifest: ManifestLore::from_conf_with_defaults(manifest, base),
            secret: SecretLore::from_conf_with_defaults(secret, base),
            base_path: string_from(base),
        };
        Ok(lore)
    }

    /// The settings of the daemon from several configurations: merged in order, the earlier
    /// ones winning, then completed with defaults; no configuration at all is the default one.
    pub fn from_confs_with_defaults(confs: Vec<FlecsConfig>) -> (res: Result<Self, u8>)
        ensures
            ({
                let version = match merged_all(confs@) {
                    Some(c) => c.version,
                    None => 1,
                };
                &&& (version != 1 ==> res == Err::<Lore, u8>(version))
                &&& (version == 1 ==> res is Ok)
            }),
            res matches Ok(l) ==> match merged_all(confs@) {
                Some(c) => l.base_path@ == base_path_of(c),
                None => l.base_path@ == BASE_PATH@,
            },
    {
        let conf = match merge_confs(confs) {
            Some(c) => c,
            None => FlecsConfig::default(),
        };
        Self::from_conf_with_defaults(conf)
    }
}

/// An instance id as the paths of instances use it: not empty and without `/`.
pub open spec fn plain_path_name(id: Seq<char>) -> bool {
    id.len() > 0 && !id.contains('/')
}

/// The directory of an instance: the base directory joined with the id.
pub open spec fn instance_dir(base: Seq<char>, id: Seq<char>) -> Seq<char> {
    join_path_spec(base, id)
}

proof fn lemma_instance_dir(base: Seq<char>, id: Seq<char>, suffix: Seq<char>)
    requires
        plain_path_name(id),
        plain_path_name(suffix),
    ensures
        join_path_spec(instance_dir(base, id), suffix) == instance_dir_prefix(base) + id + seq![
            '/',
        ] + suffix,
{
    assert(id[0] != '/') by {
        if id[0] == '/' {
            assert(id.contains('/'));
        }
    }
    assert(suffix[0] != '/') by {
        if suffix[0] == '/' {
            assert(suffix.contains('/'));
        }
    }
    let d = instance_dir(base, id);
    assert(d == instance_dir_prefix(base) + id);
    assert(d.last() == id.last());
    assert(d.last() != '/') by {
        if id.last() == '/' {
            assert(id.contains('/'));
        }
    }
}

/// What stands before the id in the directory of an instance.
pub open spec fn instance_dir_prefix(base: Seq<char>) -> Seq<char> {
    if base.len() == 0 || base.last() == '/' {
        base
    } else {
        base + seq!['/']
    }
}

/// The configuration directory and the working directory of an instance are never the same,
/// and two instances with different ids never share either of them.
pub proof fn law_instance_paths_distinct(base: Seq<char>, a: Seq<char>, b: Seq<char>)
    requires
        plain_path_name(a),
        plain_path_name(b),
    ensures
        join_path_spec(instance_dir(base, a), seq!['c', 'o', 'n', 'f']) != join_path_spec(
            instance_dir(base, a),
            seq!['w', 'o', 'r', 'k'],
        ),
        a != b ==> join_path_spec(instance_dir(base, a), seq!['w', 'o', 'r', 'k'])
            != join_path_spec(instance_dir(base, b), seq!['w', 'o', 'r', 'k']),
        a != b ==> join_path_spec(instance_dir(base, a), seq!['c', 'o', 'n', 'f'])
            != join_path_spec(instance_dir(base, b), seq!['c', 'o', 'n', 'f']),
{
    let conf = seq!['c', 'o', 'n', 'f'];
    let work = seq!['w', 'o', 'r', 'k'];
    let p = instance_dir_prefix(base);
    lemma_instance_dir(base, a, conf);
    lemma_instance_dir(base, a, work);
    lemma_instance_dir(base, b, conf);
    lemma_instance_dir(base, b, work);
    let ca = p + a + seq!['/'] + conf;
    let wa = p + a + seq!['/'] + work;
    assert(ca[ca.len() - 1] == 'f');
    assert(wa[wa.len() - 1] == 'k');
    if a != b {
        lemma_names_apart(p, a, b, conf);
        lemma_names_apart(p, a, b, work);
    }
}

proof fn lemma_names_apart(p: Seq<char>, a: Seq<char>, b: Seq<char>, suffix: Seq<char>)
    requires
        a != b,
    ensures
        p + a + seq!['/'] + suffix != p + b + seq!['/'] + suffix,
{
    let x = p + a + seq!['/'] + suffix;
    let y = p + b + seq!['/'] + suffix;
    if x == y {
        let tail = seq!['/'] + suffix;
        assert(x.len() == y.len());
        assert(a.len() == b.len());
        assert(x.subrange(p.len() as int, (p.len() + a.len()) as int) =~= a);
        assert(y.subrange(p.len() as int, (p.len() + b.len()) as int) =~= b);
    }
}

} // verus!
