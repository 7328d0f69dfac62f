//! Settings taken from environment variables.
//!
//! The variables are read through a `VarReader`; every value is text, and the readers of
//! numbers and addresses below say exactly which texts they accept.
use crate::lore::conf::{
    AppConfig, ConsoleConfig, DeploymentConfig, ExportConfig, FloxyConfig, ImportConfig,
    InstanceConfig, ManifestConfig, ProviderConfig, SecretConfig, SystemConfig,
};
use crate::num::{parse_u16, parse_u16_spec, parse_u64, parse_u64_spec, IntErrorKind};
use crate::text::{chars_equal, chars_of, chars_of_string, opt_view, string_from};
use vstd::prelude::*;

verus! {

/// The variable naming the base directory of the daemon.
pub const BASE_PATH: &'static str = "FLECS_CORE_BASE_PATH";

/// The variable naming the socket the daemon listens on.
pub const FLECSD_SOCKET_PATH: &'static str = "FLECS_CORE_SOCKET_PATH";

/// The variable holding the TCP port the daemon listens on.
pub const FLECSD_PORT: &'static str = "FLECS_CORE_PORT";

/// The variable naming the configuration file.
pub const CONFIG_PATH: &'static str = "FLECS_CORE_CONFIG_PATH";

/// The variable naming the directory of exports.
pub const EXPORT_BASE_PATH: &'static str = "FLECS_CORE_EXPORT_BASE_PATH";

/// The variable holding the timeout of exports in seconds.
pub const EXPORT_TIMEOUT: &'static str = "FLECS_CORE_EXPORT_TIMEOUT";

/// The variable naming the directory of imports.
pub const IMPORT_BASE_PATH: &'static str = "FLECS_CORE_IMPORT_BASE_PATH";

/// The variable holding the timeout of imports in seconds.
pub const IMPORT_TIMEOUT: &'static str = "FLECS_CORE_IMPORT_TIMEOUT";

/// The variable naming the directory of the reverse proxy.
pub const FLOXY_BASE_PATH: &'static str = "FLECS_CORE_FLOXY_BASE_PATH";

/// The variable holding the address of the console.
pub const CONSOLE_URI: &'static str = "FLECS_CORE_CONSOLE_URI";

/// The variable naming the directory of instances.
pub const INSTANCE_BASE_PATH: &'static str = "FLECS_CORE_INSTANCE_BASE_PATH";

/// The variable naming the directory of apps.
pub const APP_BASE_PATH: &'static str = "FLECS_CORE_APP_BASE_PATH";

/// The variable naming the directory of deployments.
pub const DEPLOYMENT_BASE_PATH: &'static str = "FLECS_CORE_DEPLOYMENT_BASE_PATH";

/// The variable naming the directory of manifests.
pub const MANIFEST_BASE_PATH: &'static str = "FLECS_CORE_MANIFEST_BASE_PATH";

/// The variable naming the directory of secrets.
pub const SECRET_BASE_PATH: &'static str = "FLECS_CORE_SECRET_BASE_PATH";

/// The variable naming the directory of providers.
pub const PROVIDER_BASE_PATH: &'static str = "FLECS_CORE_PROVIDER_BASE_PATH";

/// The variable naming the software bill of materials of the daemon.
pub const SBOM_SPDX_PATH: &'static str = "FLECS_CORE_SBOM_SPDX_PATH";

/// Why a variable that is set could not be used.
#[derive(Debug, Clone, PartialEq, Eq)]
pub enum VarError {
    /// The value of the variable `name` is no number of the expected width.
    InvalidNumber { name: String, kind: IntErrorKind },
    /// The value of the variable `name` is no URI.
    InvalidUri { name: String },
}

/// Where variables are read from.
pub trait VarReader {
    /// The text of the variable `name`, `None` where it is not set.
    spec fn var_text(&self, name: Seq<char>) -> Option<Seq<char>>;

    /// Reads the variable `name`.
    fn read_var(&self, name: &str) -> (res: Option<String>)
        ensures
            opt_view(res) == self.var_text(name@),
    ;
}

/// A set of variables given as name and value; where a name occurs twice the first entry
/// counts.
#[derive(Debug, Clone)]
pub struct VarMap {
    pub vars: Vec<(String, String)>,
}

/// The value of the first entry of `vars` named `name`.
pub open spec fn lookup(vars: Seq<(String, String)>, name: Seq<char>) -> Option<Seq<char>>
    decreases vars.len(),
{
    if vars.len() == 0 {
        None
    } else if vars[0].0@ == name {
        Some(vars[0].1@)
    } else {
        lookup(vars.drop_first(), name)
    }
}

impl VarReader for VarMap {
    open spec fn var_text(&self, name: Seq<char>) -> Option<Seq<char>> {
        lookup(self.vars@, name)
    }

    fn read_var(&self, name: &str) -> (res: Option<String>) {
        let wanted = chars_of(name);
        let mut i: usize = 0;
        assert(self.vars@.skip(0) =~= self.vars@);
        while i < self.vars.len()
            invariant
                i <= self.vars.len(),
                wanted@ == name@,
                lookup(self.vars@, name@) == lookup(self.vars@.skip(i as int), name@),
            decreases self.vars.len() - i,
        {
            assert(self.vars@.skip(i as int)[0] == self.vars@[i as int]);
            assert(self.vars@.skip(i as int).drop_first() =~= self.vars@.skip(i + 1));
            let key = chars_of_string(&self.vars[i].0);
            if chars_equal(&key, &wanted) {
                return Some(self.vars[i].1.clone());
            }
            i = i + 1;
        }
        assert(self.vars@.skip(i as int) =~= Seq::<(String, String)>::empty());
        None
    }
}

/// What a variable read as a number of at most `max` gives: nothing where it is not set,
/// else the number or why its text is none.
pub open spec fn number_var_spec(text: Option<Seq<char>>, max: nat) -> Result<Option<nat>, IntErrorKind> {
    match text {
        None => Ok(None),
        Some(t) => match crate::num::parse_unsigned(t, 10, max) {
            Ok(v) => Ok(Some(v)),
            Err(k) => Err(k),
        },
    }
}

/// Whether `res` is what reading the variable `name` as a number of at most `max` gives.
pub open spec fn number_read(
    text: Option<Seq<char>>,
    name: Seq<char>,
    max: nat,
    res: Result<Option<nat>, VarError>,
) -> bool {
    match number_var_spec(text, max) {
        Ok(v) => res == Ok::<Option<nat>, VarError>(v),
        Err(k) => res matches Err(VarError::InvalidNumber { name: n, kind }) && n@ == name
            && kind == k,
    }
}

/// The value of a `u16` read as a number.
pub open spec fn opt_u16_nat(o: Result<Option<u16>, VarError>) -> Result<Option<nat>, VarError> {
    match o {
        Ok(Some(v)) => Ok(Some(v as nat)),
        Ok(None) => Ok(None),
        Err(e) => Err(e),
    }
}

/// The value of a `u64` read as a number.
pub open spec fn opt_u64_nat(o: Result<Option<u64>, VarError>) -> Result<Option<nat>, VarError> {
    match o {
        Ok(Some(v)) => Ok(Some(v as nat)),
        Ok(None) => Ok(None),
        Err(e) => Err(e),
    }
}

/// Reads the variable `name` as a decimal `u16`.
pub fn read_u16<R: VarReader>(reader: &R, name: &str) -> (res: Result<Option<u16>, VarError>)
    ensures
        number_read(reader.var_text(name@), name@, 65535, opt_u16_nat(res)),
{
    match reader.read_var(name) {
        None => Ok(None),
        Some(text) => match parse_u16(&chars_of_string(&text)) {
            Ok(v) => Ok(Some(v)),
            Err(e) => Err(VarError::InvalidNumber { name: string_from(name), kind: e.kind }),
        },
    }
}

/// Reads the variable `name` as a whole number of seconds.
pub fn read_secs<R: VarReader>(reader: &R, name: &str) -> (res: Result<Option<u64>, VarError>)
    ensures
        number_read(reader.var_text(name@), name@, 0xffff_ffff_ffff_ffff, opt_u64_nat(res)),
{
    match reader.read_var(name) {
        None => Ok(None),
        Some(text) => match parse_u64(&chars_of_string(&text)) {
            Ok(v) => Ok(Some(v)),
            Err(e) => Err(VarError::InvalidNumber { name: string_from(name), kind: e.kind }),
        },
    }
}

/// Whether `text` is a URI as `http::Uri` reads it.
pub uninterp spec fn uri_is_valid(text: Seq<char>) -> bool;

/// Whether `text` parses as an `http::Uri`; the contract claims that the answer is the one
/// `uri_is_valid` names, which depends on the text alone.
#[verifier::external_body]
fn uri_parses(text: &str) -> (res: bool)
    ensures
        res == uri_is_valid(text@),
{
    text.parse::<http::Uri>().is_ok()
}

/// Reads the variable `name` as a URI.
pub fn read_uri<R: VarReader>(reader: &R, name: &str) -> (res: Result<Option<String>, VarError>)
    ensures
        match reader.var_text(name@) {
            None => res matches Ok(None),
            Some(t) => if uri_is_valid(t) {
                res matches Ok(Some(u)) && u@ == t
            } else {
                res matches Err(VarError::InvalidUri { name: n }) && n@ == name@
            },
        },
{
    match reader.read_var(name) {
        None => Ok(None),
        Some(text) => {
            if uri_parses(text.as_str()) {
                Ok(Some(text))
            } else {
                Err(VarError::InvalidUri { name: string_from(name) })
            }
        },
    }
}

/// The configured base directory of the daemon.
pub fn base_path<R: VarReader>(reader: &R) -> (res: Option<String>)
    ensures
        opt_view(res) == reader.var_text(BASE_PATH@),
{
    reader.read_var(BASE_PATH)
}

/// The configured configuration file.
pub fn config_path<R: VarReader>(reader: &R) -> (res: Option<String>)
    ensures
        opt_view(res) == reader.var_text(CONFIG_PATH@),
{
    reader.read_var(CONFIG_PATH)
}

/// The configured socket of the daemon.
pub fn flecsd_socket_path<R: VarReader>(reader: &R) -> (res: Option<String>)
    ensures
        opt_view(res) == reader.var_text(FLECSD_SOCKET_PATH@),
{
    reader.read_var(FLECSD_SOCKET_PATH)
}

/// The configured TCP port of the daemon.
pub fn flecsd_port<R: VarReader>(reader: &R) -> (res: Result<Option<u16>, VarError>)
    ensures
        number_read(reader.var_text(FLECSD_PORT@), FLECSD_PORT@, 65535, opt_u16_nat(res)),
{
    read_u16(reader, FLECSD_PORT)
}


impl ExportConfig {
    /// The export settings of the environment: present only where both the directory and
    /// the timeout are set; a timeout that is no number of seconds is an error.
    pub fn from_var_reader<R: VarReader>(reader: &R) -> (res: Result<Option<Self>, VarError>)
        ensures
            match number_var_spec(reader.var_text(EXPORT_TIMEOUT@), 0xffff_ffff_ffff_ffff) {
                Err(k) => res matches Err(VarError::InvalidNumber { name, kind }) && name@
                    == EXPORT_TIMEOUT@ && kind == k,
                Ok(t) => res matches Ok(o) && if reader.var_text(EXPORT_BASE_PATH@) is Some && t is Some {
                    &&& o is Some
                    &&& opt_view(o->0.base_path) == reader.var_text(EXPORT_BASE_PATH@)
                    &&& o->0.timeout is Some
                    &&& t == Some(o->0.timeout->0 as nat)
                } else {
                    o is None
                },
            },
    {
        let base_path = reader.read_var(EXPORT_BASE_PATH);
        let timeout = match read_secs(reader, EXPORT_TIMEOUT) {
            Ok(t) => t,
            Err(e) => return Err(e),
        };
        if base_path.is_some() && timeout.is_some() {
            Ok(Some(ExportConfig { base_path, timeout }))
        } else {
            Ok(None)
        }
    }
}

impl ImportConfig {
    /// The import settings of the environment: present only where both the directory and
    /// the timeout are set; a timeout that is no number of seconds is an error.
    pub fn from_var_reader<R: VarReader>(reader: &R) -> (res: Result<Option<Self>, VarError>)
        ensures
            match number_var_spec(reader.var_text(IMPORT_TIMEOUT@), 0xffff_ffff_ffff_ffff) {
                Err(k) => res matches Err(VarError::InvalidNumber { name, kind }) && name@
                    == IMPORT_TIMEOUT@ && kind == k,
                Ok(t) => res matches Ok(o) && if reader.var_text(IMPORT_BASE_PATH@) is Some && t is Some {
                    &&& o is Some
                    &&& opt_view(o->0.base_path) == reader.var_text(IMPORT_BASE_PATH@)
                    &&& o->0.timeout is Some
                    &&& t == Some(o->0.timeout->0 as nat)
                } else {
                    o is None
                },
            },
    {
        let base_path = reader.read_var(IMPORT_BASE_PATH);
        let timeout = match read_secs(reader, IMPORT_TIMEOUT) {
            Ok(t) => t,
            Err(e) => return Err(e),
        };
        if base_path.is_some() && timeout.is_some() {
            Ok(Some(ImportConfig { base_path, timeout }))
        } else {
            Ok(None)
        }
    }
}

impl FloxyConfig {
    /// The reverse proxy settings of the environment: the directory where its variable is
    /// set; the configuration file is not read from the environment.
    pub fn from_var_reader<R: VarReader>(reader: &R) -> (res: Option<Self>)
        ensures
            match reader.var_text(FLOXY_BASE_PATH@) {
                None => res is None,
                Some(t) => res matches Some(cfg) && opt_view(cfg.base_path) == Some(t)
                    && cfg.config_path is None,
            },
    {
        match reader.read_var(FLOXY_BASE_PATH) {
            Some(path) => Some(FloxyConfig { base_path: Some(path), config_path: None }),
            None => None,
        }
    }
}

impl ConsoleConfig {
    /// The console setting of the environment; a value that is no URI is an error.
    pub fn from_var_reader<R: VarReader>(reader: &R) -> (res: Result<Option<Self>, VarError>)
        ensures
            match reader.var_text(CONSOLE_URI@) {
                None => res matches Ok(None),
                Some(t) => if uri_is_valid(t) {
                    res matches Ok(Some(cfg)) && opt_view(cfg.uri) == Some(t)
                } else {
                    res matches Err(VarError::InvalidUri { name }) && name@ == CONSOLE_URI@
                },
            },
    {
        match read_uri(reader, CONSOLE_URI) {
            Ok(Some(uri)) => Ok(Some(ConsoleConfig { uri: Some(uri) })),
            Ok(None) => Ok(None),
            Err(e) => Err(e),
        }
    }
}

impl InstanceConfig {
    /// The instance directory setting of the environment, present where its variable is set.
    pub fn from_var_reader<R: VarReader>(reader: &R) -> (res: Option<Self>)
        ensures
            match reader.var_text(INSTANCE_BASE_PATH@) {
                None => res is None,
                Some(t) => res matches Some(cfg) && opt_view(cfg.base_path) == Some(t),
            },
    {
        match reader.read_var(INSTANCE_BASE_PATH) {
            Some(path) => Some(InstanceConfig { base_path: Some(path) }),
            None => None,
        }
    }
}

impl AppConfig {
    /// The app directory setting of the environment, present where its variable is set.
    pub fn from_var_reader<R: VarReader>(reader: &R) -> (res: Option<Self>)
        ensures
            match reader.var_text(APP_BASE_PATH@) {
                None => res is None,
                Some(t) => res matches Some(cfg) && opt_view(cfg.base_path) == Some(t),
            },
    {
        match reader.read_var(APP_BASE_PATH) {
            Some(path) => Some(AppConfig { base_path: Some(path) }),
            None => None,
        }
    }
}

impl DeploymentConfig {
    /// The deployment directory setting of the environment, present where its variable is set.
    pub fn from_var_reader<R: VarReader>(reader: &R) -> (res: Option<Self>)
        ensures
            match reader.var_text(DEPLOYMENT_BASE_PATH@) {
                None => res is None,
                Some(t) => res matches Some(cfg) && opt_view(cfg.base_path) == Some(t),
            },
    {
        match reader.read_var(DEPLOYMENT_BASE_PATH) {
            Some(path) => Some(DeploymentConfig { base_path: Some(path) }),
            None => None,
        }
    }
}

impl ManifestConfig {
    /// The manifest directory setting of the environment, present where its variable is set.
    pub fn from_var_reader<R: VarReader>(reader: &R) -> (res: Option<Self>)
        ensures
            match reader.var_text(MANIFEST_BASE_PATH@) {
                None => res is None,
                Some(t) => res matches Some(cfg) && opt_view(cfg.base_path) == Some(t),
            },
    {
        match reader.read_var(MANIFEST_BASE_PATH) {
            Some(path) => Some(ManifestConfig { base_path: Some(path) }),
            None => None,
        }
    }
}

impl SecretConfig {
    /// The secret directory setting of the environment, present where its variable is set.
    pub fn from_var_reader<R: VarReader>(reader: &R) -> (res: Option<Self>)
        ensures
            match reader.var_text(SECRET_BASE_PATH@) {
                None => res is None,
                Some(t) => res matches Some(cfg) && opt_view(cfg.base_path) == Some(t),
            },
    {
        match reader.read_var(SECRET_BASE_PATH) {
            Some(path) => Some(SecretConfig { base_path: Some(path) }),
            None => None,
        }
    }
}

impl ProviderConfig {
    /// The provider directory setting of the environment, present where its variable is set.
    pub fn from_var_reader<R: VarReader>(reader: &R) -> (res: Option<Self>)
        ensures
            match reader.var_text(PROVIDER_BASE_PATH@) {
                None => res is None,
                Some(t) => res matches Some(cfg) && opt_view(cfg.base_path) == Some(t),
            },
    {
        match reader.read_var(PROVIDER_BASE_PATH) {
            Some(path) => Some(ProviderConfig { base_path: Some(path) }),
            None => None,
        }
    }
}

impl SystemConfig {
    /// The bill of materials setting of the environment, present where its variable is set.
    pub fn from_var_reader<R: VarReader>(reader: &R) -> (res: Option<Self>)
        ensures
            match reader.var_text(SBOM_SPDX_PATH@) {
                None => res is None,
                Some(t) => res matches Some(cfg) && opt_view(cfg.core_sbom_spdx_path) == Some(t),
            },
    {
        match reader.read_var(SBOM_SPDX_PATH) {
            Some(path) => Some(SystemConfig { core_sbom_spdx_path: Some(path) }),
            None => None,
        }
    }
}
} // verus!
