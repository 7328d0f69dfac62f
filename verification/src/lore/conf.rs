//! The configuration as configuration files and the environment give it: every setting is
//! optional, and several configurations are merged into one, the earlier one winning.
use crate::network::{Ipv4Net, NetworkKind};
use vstd::prelude::*;

verus! {

/// Values that take over what another value of their type sets and they leave open.
pub trait Mergeable: Sized {
    /// The value after `other` was merged into `self`.
    spec fn merged(self, other: Self) -> Self;

    /// Merges `other` into `self`.
    fn merge(&mut self, other: Self)
        ensures
            *final(self) == old(self).merged(other),
    ;
}

/// Values that are only ever taken over as a whole.
pub trait TriviallyMergeable: Sized {
    /// The value after `other` was merged into `self`.
    spec fn trivially_merged(self, other: Self) -> Self;

    /// Merges `other` into `self`.
    fn trivial_merge(&mut self, other: Self)
        ensures
            *final(self) == old(self).trivially_merged(other),
    ;
}

impl<T> TriviallyMergeable for Option<T> {
    /// A set value stays, an open one takes `other`.
    open spec fn trivially_merged(self, other: Self) -> Self {
        if self is Some {
            self
        } else {
            other
        }
    }

    fn trivial_merge(&mut self, other: Self) {
        if self.is_none() {
            *self = other;
        }
    }
}

impl<T: Mergeable> Mergeable for Option<T> {
    /// Two set values are merged, an open one takes `other`.
    open spec fn merged(self, other: Self) -> Self {
        match (self, other) {
            (Some(s), Some(o)) => Some(s.merged(o)),
            (None, Some(o)) => Some(o),
            _ => self,
        }
    }

    fn merge(&mut self, other: Self) {
        match other {
            Some(o) => {
                if self.is_some() {
                    let mut s = self.take().unwrap();
                    s.merge(o);
                    *self = Some(s);
                } else {
                    *self = Some(o);
                }
            },
            None => {},
        }
    }
}

/// Where exports are written and how long they may take.
#[derive(Debug, Clone, PartialEq, Eq)]
pub struct ExportConfig {
    pub base_path: Option<String>,
    pub timeout: Option<u64>,
}

/// Where imports are read from and how long they may take.
#[derive(Debug, Clone, PartialEq, Eq)]
pub struct ImportConfig {
    pub base_path: Option<String>,
    pub timeout: Option<u64>,
}

/// Paths of the reverse proxy.
#[derive(Debug, Clone, PartialEq, Eq)]
pub struct FloxyConfig {
    pub base_path: Option<String>,
    pub config_path: Option<String>,
}

/// The address of the console.
#[derive(Debug, Clone, PartialEq, Eq)]
pub struct ConsoleConfig {
    pub uri: Option<String>,
}

/// Where instances are kept.
#[derive(Debug, Clone, PartialEq, Eq)]
pub struct InstanceConfig {
    pub base_path: Option<String>,
}

/// Where apps are kept.
#[derive(Debug, Clone, PartialEq, Eq)]
pub struct AppConfig {
    pub base_path: Option<String>,
}

/// Where deployments are kept.
#[derive(Debug, Clone, PartialEq, Eq)]
pub struct DeploymentConfig {
    pub base_path: Option<String>,
}

/// Where manifests are kept.
#[derive(Debug, Clone, PartialEq, Eq)]
pub struct ManifestConfig {
    pub base_path: Option<String>,
}

/// Where secrets are kept.
#[derive(Debug, Clone, PartialEq, Eq)]
pub struct SecretConfig {
    pub base_path: Option<String>,
}

/// Where providers are kept.
#[derive(Debug, Clone, PartialEq, Eq)]
pub struct ProviderConfig {
    pub base_path: Option<String>,
}

/// Paths of system information.
#[derive(Debug, Clone, PartialEq, Eq)]
pub struct SystemConfig {
    pub core_sbom_spdx_path: Option<String>,
}

impl Default for ExportConfig {
    fn default() -> (res: Self)
        ensures
            res.base_path is None,
            res.timeout is None,
    {
        ExportConfig { base_path: None, timeout: None }
    }
}

impl Default for ImportConfig {
    fn default() -> (res: Self)
        ensures
            res.base_path is None,
            res.timeout is None,
    {
        ImportConfig { base_path: None, timeout: None }
    }
}

impl Default for FloxyConfig {
    fn default() -> (res: Self)
        ensures
            res.base_path is None,
            res.config_path is None,
    {
        FloxyConfig { base_path: None, config_path: None }
    }
}

impl Default for ConsoleConfig {
    fn default() -> (res: Self)
        ensures
            res.uri is None,
    {
        ConsoleConfig { uri: None }
    }
}

impl Default for InstanceConfig {
    fn default() -> (res: Self)
        ensures
            res.base_path is None,
    {
        InstanceConfig { base_path: None }
    }
}

impl Default for AppConfig {
    fn default() -> (res: Self)
        ensures
            res.base_path is None,
    {
        AppConfig { base_path: None }
    }
}

impl Default for DeploymentConfig {
    fn default() -> (res: Self)
        ensures
            res.base_path is None,
    {
        DeploymentConfig { base_path: None }
    }
}

impl Default for ManifestConfig {
    fn default() -> (res: Self)
        ensures
            res.base_path is None,
    {
        ManifestConfig { base_path: None }
    }
}

impl Default for SecretConfig {
    fn default() -> (res: Self)
        ensures
            res.base_path is None,
    {
        SecretConfig { base_path: None }
    }
}

impl Default for ProviderConfig {
    fn default() -> (res: Self)
        ensures
            res.base_path is None,
    {
        ProviderConfig { base_path: None }
    }
}

impl Default for SystemConfig {
    fn default() -> (res: Self)
        ensures
            res.core_sbom_spdx_path is None,
    {
        SystemConfig { core_sbom_spdx_path: None }
    }
}

impl Mergeable for ExportConfig {
    open spec fn merged(self, other: Self) -> Self {
        ExportConfig {
            base_path: self.base_path.trivially_merged(other.base_path),
            timeout: self.timeout.trivially_merged(other.timeout),
        }
    }

    fn merge(&mut self, other: Self) {
        self.base_path.trivial_merge(other.base_path);
        self.timeout.trivial_merge(other.timeout);
    }
}

impl Mergeable for ImportConfig {
    open spec fn merged(self, other: Self) -> Self {
        ImportConfig {
            base_path: self.base_path.trivially_merged(other.base_path),
            timeout: self.timeout.trivially_merged(other.timeout),
        }
    }

    fn merge(&mut self, other: Self) {
        self.base_path.trivial_merge(other.base_path);
        self.timeout.trivial_merge(other.timeout);
    }
}

impl Mergeable for FloxyConfig {
    open spec fn merged(self, other: Self) -> Self {
        FloxyConfig {
            base_path: self.base_path.trivially_merged(other.base_path),
            config_path: self.config_path.trivially_merged(other.config_path),
        }
    }

    fn merge(&mut self, other: Self) {
        self.base_path.trivial_merge(other.base_path);
        self.config_path.trivial_merge(other.config_path);
    }
}

impl Mergeable for ConsoleConfig {
    open spec fn merged(self, other: Self) -> Self {
        ConsoleConfig { uri: self.uri.trivially_merged(other.uri) }
    }

    fn merge(&mut self, other: Self) {
        self.uri.trivial_merge(other.uri);
    }
}

impl Mergeable for InstanceConfig {
    open spec fn merged(self, other: Self) -> Self {
        InstanceConfig { base_path: self.base_path.trivially_merged(other.base_path) }
    }

    fn merge(&mut self, other: Self) {
        self.base_path.trivial_merge(other.base_path);
    }
}

impl Mergeable for AppConfig {
    open spec fn merged(self, other: Self) -> Self {
        AppConfig { base_path: self.base_path.trivially_merged(other.base_path) }
    }

    fn merge(&mut self, other: Self) {
        self.base_path.trivial_merge(other.base_path);
    }
}

impl Mergeable for DeploymentConfig {
    open spec fn merged(self, other: Self) -> Self {
        DeploymentConfig { base_path: self.base_path.trivially_merged(other.base_path) }
    }

    fn merge(&mut self, other: Self) {
        self.base_path.trivial_merge(other.base_path);
    }
}

impl Mergeable for ManifestConfig {
    open spec fn merged(self, other: Self) -> Self {
        ManifestConfig { base_path: self.base_path.trivially_merged(other.base_path) }
    }

    fn merge(&mut self, other: Self) {
        self.base_path.trivial_merge(other.base_path);
    }
}

impl Mergeable for SecretConfig {
    open spec fn merged(self, other: Self) -> Self {
        SecretConfig { base_path: self.base_path.trivially_merged(other.base_path) }
    }

    fn merge(&mut self, other: Self) {
        self.base_path.trivial_merge(other.base_path);
    }
}

impl Mergeable for ProviderConfig {
    open spec fn merged(self, other: Self) -> Self {
        ProviderConfig { base_path: self.base_path.trivially_merged(other.base_path) }
    }

    fn merge(&mut self, other: Self) {
        self.base_path.trivial_merge(other.base_path);
    }
}

impl Mergeable for SystemConfig {
    open spec fn merged(self, other: Self) -> Self {
        SystemConfig {
            core_sbom_spdx_path: self.core_sbom_spdx_path.trivially_merged(
                other.core_sbom_spdx_path,
            ),
        }
    }

    fn merge(&mut self, other: Self) {
        self.core_sbom_spdx_path.trivial_merge(other.core_sbom_spdx_path);
    }
}

/// Merging keeps every setting of the first value and takes the second value's settings
/// only where the first leaves them open; merging a value into itself changes nothing, and
/// merging is associative.
pub proof fn law_trivial_merge<T>(a: Option<T>, b: Option<T>, c: Option<T>)
    ensures
        a is Some ==> a.trivially_merged(b) == a,
        a is None ==> a.trivially_merged(b) == b,
        a.trivially_merged(a) == a,
        a.trivially_merged(b).trivially_merged(c) == a.trivially_merged(b.trivially_merged(c)),
{
}

/// Merging a value into an open value gives the value, merging nothing in keeps the value.
pub proof fn law_merge_option<T: Mergeable>(a: Option<T>, b: Option<T>)
    ensures
        a is None ==> a.merged(b) == b,
        b is None ==> a.merged(b) == a,
        (a is Some && b is Some) ==> a.merged(b) == Some(a->0.merged(b->0)),
{
}

/// The settings of the default network of the daemon.
#[derive(Debug, Clone, PartialEq, Eq)]
pub struct NetworkConfig {
    pub default_network_name: Option<String>,
    pub default_cidr_subnet: Option<Ipv4Net>,
    pub default_gateway: Option<u32>,
    /// The driver options, each name once.
    pub default_options: Option<Vec<(String, String)>>,
    pub default_parent_adapter: Option<String>,
    pub default_network_kind: Option<NetworkKind>,
}

impl Default for NetworkConfig {
    fn default() -> (res: Self)
        ensures
            res.default_network_name is None,
            res.default_cidr_subnet is None,
            res.default_gateway is None,
            res.default_options is None,
            res.default_parent_adapter is None,
            res.default_network_kind is None,
    {
        NetworkConfig {
            default_network_name: None,
            default_cidr_subnet: None,
            default_gateway: None,
            default_options: None,
            default_parent_adapter: None,
            default_network_kind: None,
        }
    }
}

impl Mergeable for NetworkConfig {
    open spec fn merged(self, other: Self) -> Self {
        NetworkConfig {
            default_network_name: self.default_network_name.trivially_merged(
                other.default_network_name,
            ),
            default_cidr_subnet: self.default_cidr_subnet.trivially_merged(other.default_cidr_subnet),
            default_gateway: self.default_gateway.trivially_merged(other.default_gateway),
            default_options: self.default_options.trivially_merged(other.default_options),
            default_parent_adapter: self.default_parent_adapter.trivially_merged(
                other.default_parent_adapter,
            ),
            default_network_kind: self.default_network_kind.trivially_merged(
                other.default_network_kind,
            ),
        }
    }

    fn merge(&mut self, other: Self) {
        self.default_cidr_subnet.trivial_merge(other.default_cidr_subnet);
        self.default_gateway.trivial_merge(other.default_gateway);
        self.default_network_kind.trivial_merge(other.default_network_kind);
        self.default_network_name.trivial_merge(other.default_network_name);
        self.default_options.trivial_merge(other.default_options);
        self.default_parent_adapter.trivial_merge(other.default_parent_adapter);
    }
}

/// The whole configuration of the daemon: the version of its format, the base directory,
/// the socket, and the settings of each part.
#[derive(Debug, Clone, PartialEq, Eq)]
pub struct FlecsConfig {
    pub version: u8,
    /// The filter of the log, as its directives are written.
    pub tracing_filter: Option<String>,
    pub base_path: Option<String>,
    pub flecsd_socket_path: Option<String>,
    pub export: Option<ExportConfig>,
    pub import: Option<ImportConfig>,
    pub floxy: Option<FloxyConfig>,
    pub console: Option<ConsoleConfig>,
    pub instance: Option<InstanceConfig>,
    pub network: Option<NetworkConfig>,
    pub app: Option<AppConfig>,
    pub deployment: Option<DeploymentConfig>,
    pub manifest: Option<ManifestConfig>,
    pub secret: Option<SecretConfig>,
}

impl Default for FlecsConfig {
    fn default() -> (res: Self)
        ensures
            res.version == 1,
            res.tracing_filter is None,
            res.base_path is None,
            res.flecsd_socket_path is None,
            res.export is None,
            res.import is None,
            res.floxy is None,
            res.console is None,
            res.instance is None,
            res.network is None,
            res.app is None,
            res.deployment is None,
            res.manifest is None,
            res.secret is None,
    {
        FlecsConfig {
            version: 1,
            tracing_filter: None,
            base_path: None,
            flecsd_socket_path: None,
            export: None,
            import: None,
            floxy: None,
            console: None,
            instance: None,
            network: None,
            app: None,
            deployment: None,
            manifest: None,
            secret: None,
        }
    }
}

impl Mergeable for FlecsConfig {
    /// Every setting of `self` stays and takes what `other` sets and it leaves open; the
    /// version is that of `self`.
    open spec fn merged(self, other: Self) -> Self {
        FlecsConfig {
            version: self.version,
            tracing_filter: self.tracing_filter.trivially_merged(other.tracing_filter),
            base_path: self.base_path.trivially_merged(other.base_path),
            flecsd_socket_path: self.flecsd_socket_path.trivially_merged(other.flecsd_socket_path),
            export: self.export.merged(other.export),
            import: self.import.merged(other.import),
            floxy: self.floxy.merged(other.floxy),
            console: self.console.merged(other.console),
            instance: self.instance.merged(other.instance),
            network: self.network.merged(other.network),
            app: self.app.merged(other.app),
            deployment: self.deployment.merged(other.deployment),
            manifest: self.manifest.merged(other.manifest),
            secret: self.secret.merged(other.secret),
        }
    }

    fn merge(&mut self, other: Self) {
        let FlecsConfig {
            version: _,
            tracing_filter,
            base_path,
            flecsd_socket_path,
            export,
            import,
            floxy,
            console,
            instance,
            network,
            app,
            deployment,
            manifest,
            secret,
        } = other;
        self.tracing_filter.trivial_merge(tracing_filter);
        self.base_path.trivial_merge(base_path);
        self.flecsd_socket_path.trivial_merge(flecsd_socket_path);
        self.export.merge(export);
        self.import.merge(import);
        self.floxy.merge(floxy);
        self.console.merge(console);
        self.instance.merge(instance);
        self.network.merge(network);
        self.app.merge(app);
        self.deployment.merge(deployment);
        self.manifest.merge(manifest);
        self.secret.merge(secret);
    }
}

/// The configurations merged one after the other, each earlier one winning; no
/// configuration at all is the default one.
pub open spec fn merged_all(confs: Seq<FlecsConfig>) -> Option<FlecsConfig>
    decreases confs.len(),
{
    if confs.len() == 0 {
        None
    } else {
        match merged_all(confs.drop_last()) {
            None => Some(confs.last()),
            Some(m) => Some(m.merged(confs.last())),
        }
    }
}

/// Merges the configurations in order, the earlier ones winning; `None` where there are
/// none.
pub fn merge_confs(confs: Vec<FlecsConfig>) -> (res: Option<FlecsConfig>)
    ensures
        res == merged_all(confs@),
{
    let ghost all = confs@;
    let mut rest = confs;
    let mut acc: Option<FlecsConfig> = None;
    let mut n: usize = 0;
    assert(all.len() == rest.len());
    while rest.len() > 0
        invariant
            n + rest@.len() == all.len(),
            all.len() <= usize::MAX,
            rest@ == all.skip(n as int),
            acc == merged_all(all.take(n as int)),
        decreases rest@.len(),
    {
        let next = rest.remove(0);
        assert(next == all[n as int]);
        assert(rest@ =~= all.skip(n + 1));
        assert(all.take(n + 1).drop_last() =~= all.take(n as int));
        assert(all.take(n + 1).last() == all[n as int]);
        acc = match acc {
            None => Some(next),
            Some(mut current) => {
                current.merge(next);
                Some(current)
            },
        };
        n = n + 1;
    }
    assert(all.take(n as int) =~= all);
    acc
}

/// The setting of the first value where it has one, else that of the second.
pub open spec fn first_set<T>(first: Option<T>, second: Option<T>) -> Option<T> {
    match first {
        Some(x) => Some(x),
        None => second,
    }
}

/// Merging two configurations keeps the version of the first; every setting of the merged
/// configuration is the first one's where it sets it and the second one's otherwise, and
/// every section is the first one's where only it has the section, the second one's where
/// only that has it, and merged setting by setting where both have it.
pub proof fn law_flecs_config_merge(a: FlecsConfig, b: FlecsConfig)
    ensures
        a.merged(b).version == a.version,
        a.merged(b).tracing_filter == first_set(a.tracing_filter, b.tracing_filter),
        a.merged(b).base_path == first_set(a.base_path, b.base_path),
        a.merged(b).flecsd_socket_path == first_set(a.flecsd_socket_path, b.flecsd_socket_path),
        match (a.export, b.export) {
            (Some(x), Some(y)) => a.merged(b).export == Some(ExportConfig { base_path: first_set(x.base_path, y.base_path), timeout: first_set(x.timeout, y.timeout) }),
            (Some(x), None) => a.merged(b).export == Some(x),
            (None, y) => a.merged(b).export == y,
        },
        match (a.import, b.import) {
            (Some(x), Some(y)) => a.merged(b).import == Some(ImportConfig { base_path: first_set(x.base_path, y.base_path), timeout: first_set(x.timeout, y.timeout) }),
            (Some(x), None) => a.merged(b).import == Some(x),
            (None, y) => a.merged(b).import == y,
        },
        match (a.floxy, b.floxy) {
            (Some(x), Some(y)) => a.merged(b).floxy == Some(FloxyConfig { base_path: first_set(x.base_path, y.base_path), config_path: first_set(x.config_path, y.config_path) }),
            (Some(x), None) => a.merged(b).floxy == Some(x),
            (None, y) => a.merged(b).floxy == y,
        },
        match (a.console, b.console) {
            (Some(x), Some(y)) => a.merged(b).console == Some(ConsoleConfig { uri: first_set(x.uri, y.uri) }),
            (Some(x), None) => a.merged(b).console == Some(x),
            (None, y) => a.merged(b).console == y,
        },
        match (a.instance, b.instance) {
            (Some(x), Some(y)) => a.merged(b).instance == Some(InstanceConfig { base_path: first_set(x.base_path, y.base_path) }),
            (Some(x), None) => a.merged(b).instance == Some(x),
            (None, y) => a.merged(b).instance == y,
        },
        match (a.network, b.network) {
            (Some(x), Some(y)) => a.merged(b).network == Some(NetworkConfig { default_network_name: first_set(x.default_network_name, y.default_network_name), default_cidr_subnet: first_set(x.default_cidr_subnet, y.default_cidr_subnet), default_gateway: first_set(x.default_gateway, y.default_gateway), default_options: first_set(x.default_options, y.default_options), default_parent_adapter: first_set(x.default_parent_adapter, y.default_parent_adapter), default_network_kind: first_set(x.default_network_kind, y.default_network_kind) }),
            (Some(x), None) => a.merged(b).network == Some(x),
            (None, y) => a.merged(b).network == y,
        },
        match (a.app, b.app) {
            (Some(x), Some(y)) => a.merged(b).app == Some(AppConfig { base_path: first_set(x.base_path, y.base_path) }),
            (Some(x), None) => a.merged(b).app == Some(x),
            (None, y) => a.merged(b).app == y,
        },
        match (a.deployment, b.deployment) {
            (Some(x), Some(y)) => a.merged(b).deployment == Some(DeploymentConfig { base_path: first_set(x.base_path, y.base_path) }),
            (Some(x), None) => a.merged(b).deployment == Some(x),
            (None, y) => a.merged(b).deployment == y,
        },
        match (a.manifest, b.manifest) {
            (Some(x), Some(y)) => a.merged(b).manifest == Some(ManifestConfig { base_path: first_set(x.base_path, y.base_path) }),
            (Some(x), None) => a.merged(b).manifest == Some(x),
            (None, y) => a.merged(b).manifest == y,
        },
        match (a.secret, b.secret) {
            (Some(x), Some(y)) => a.merged(b).secret == Some(SecretConfig { base_path: first_set(x.base_path, y.base_path) }),
            (Some(x), None) => a.merged(b).secret == Some(x),
            (None, y) => a.merged(b).secret == y,
        },
{
}

/// Merging configurations one after the other: with none there is no configuration, and
/// each further configuration is merged into what the earlier ones gave, so that the
/// earlier ones win and the later ones fill what they leave open.
pub proof fn law_merged_all_order(confs: Seq<FlecsConfig>, next: FlecsConfig)
    ensures
        merged_all(Seq::empty()) is None,
        merged_all(seq![next]) == Some(next),
        merged_all(confs.push(next)) == match merged_all(confs) {
            None => Some(next),
            Some(c) => Some(c.merged(next)),
        },
{
    assert(confs.push(next).drop_last() =~= confs);
    assert(seq![next].drop_last() =~= Seq::<FlecsConfig>::empty());
}

} // verus!
