//! Default values of the configuration.
use crate::text::join_path;
use vstd::prelude::*;

verus! {

/// The directory below which the daemon keeps its data.
pub const BASE_PATH: &'static str = "/var/lib/flecs/";

/// The configuration file read when none is named.
pub const CONFIG_PATH: &'static str = "/var/lib/flecs/config.toml";

/// The socket the daemon listens on when nothing else is configured.
pub const FLECSD_SOCKET_PATH: &'static str = "/run/flecs/flecsd.sock";

/// The TCP port the daemon listens on when only a bind address is configured.
pub const FLECSD_PORT: u16 = 8951;

/// Sub-directory of the base path for imports.
pub const IMPORT_BASE_DIRECTORY_NAME: &'static str = "import";

/// Timeout of imports in seconds: practically unlimited.
pub const IMPORT_TIMEOUT: u64 = 9223372036854775807;

/// Sub-directory of the base path for exports.
pub const EXPORT_BASE_DIRECTORY_NAME: &'static str = "export";

/// Timeout of exports in seconds: practically unlimited.
pub const EXPORT_TIMEOUT: u64 = 9223372036854775807;

/// Sub-directory of the base path for the reverse proxy.
pub const FLOXY_BASE_DIRECTORY_NAME: &'static str = "floxy";

/// The main configuration file of the reverse proxy.
pub const FLOXY_CONFIG_PATH: &'static str = "/etc/nginx/floxy.conf";

/// Sub-directory of the reverse proxy directory for server configurations.
pub const FLOXY_SERVER_CONFIGS_DIR_NAME: &'static str = "servers";

/// Sub-directory of the reverse proxy directory for instance configurations.
pub const FLOXY_INSTANCE_CONFIGS_DIR_NAME: &'static str = "instances";

/// Sub-directory of the base path for instances.
pub const INSTANCE_BASE_DIRECTORY_NAME: &'static str = "instances";

/// Sub-directory of the base path for apps.
pub const APP_BASE_DIRECTORY_NAME: &'static str = "apps";

/// Sub-directory of the base path for deployments.
pub const DEPLOYMENT_BASE_DIRECTORY_NAME: &'static str = "deployments";

/// Sub-directory of the base path for manifests.
pub const MANIFEST_BASE_DIRECTORY_NAME: &'static str = "manifests";

/// Sub-directory of the base path for secrets.
pub const SECRET_BASE_DIRECTORY_NAME: &'static str = "device";

/// Sub-directory of the base path for providers.
pub const PROVIDER_BASE_DIRECTORY_NAME: &'static str = "providers";

/// The name of the network instances are attached to by default.
pub const DEFAULT_NETWORK_NAME: &'static str = "flecs";

/// The directory holding the software bill of materials.
pub const SBOM_BASE_PATH: &'static str = "/usr/local/lib/flecs/sbom";

/// The file name of the software bill of materials.
pub const SBOM_SPDX_FILE_NAME: &'static str = "sbom.spdx.json";

/// The path of the software bill of materials of the daemon.
pub fn sbom_spdx_file_path_path() -> (res: String)
    ensures
        res@ == crate::text::join_path_spec(SBOM_BASE_PATH@, SBOM_SPDX_FILE_NAME@),
{
    join_path(SBOM_BASE_PATH, SBOM_SPDX_FILE_NAME)
}

} // verus!
