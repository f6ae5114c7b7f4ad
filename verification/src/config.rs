//! Runtime configuration: the providers it can come from and the values the
//! service reads from it.
use vstd::prelude::*;

verus! {

/// Configuration read from a file.
pub struct StaticConfigProvider {}

impl StaticConfigProvider {
    /// A provider for the configuration file at `path` (any text type). The file is not read yet.
    pub fn from_file<T>(path: T) -> (provider: Self)
        ensures
            provider == (StaticConfigProvider {}),
    {
        StaticConfigProvider {}
    }
}

/// The values a provider supplies.
pub struct ConfigInner {
    pub base_path: String,
    pub errorpath: String,
}

impl Default for ConfigInner {
    /// No base path and no error path.
    fn default() -> (c: Self)
        ensures
            c.base_path@ == Seq::<char>::empty(),
            c.errorpath@ == Seq::<char>::empty(),
    {
        ConfigInner { base_path: String::new(), errorpath: String::new() }
    }
}

/// The configuration the service reads, kept up to date from one provider.
pub struct Config {
    inner: ConfigInner,
}

/// The forwarding target `Config::base_path` reports.
pub open spec fn default_base_path() -> Seq<char> {
    "127.0.0.1:3000"@
}

impl Config {
    /// The base path the provider last supplied.
    pub closed spec fn supplied_base_path(&self) -> Seq<char> {
        self.inner.base_path@
    }

    /// The error path the provider last supplied.
    pub closed spec fn supplied_error_path(&self) -> Seq<char> {
        self.inner.errorpath@
    }

    /// A configuration wired to `provider`. Nothing has been supplied yet, so
    /// both paths start empty; building it does not fail.
    pub fn with_provider<T>(provider: T) -> (res: Result<Config, ConfigError>)
        ensures
            res matches Ok(c) && c.supplied_base_path() == Seq::<char>::empty()
                && c.supplied_error_path() == Seq::<char>::empty(),
    {
        Ok(Config { inner: ConfigInner::default() })
    }

    /// The address requests are forwarded to.
    pub fn base_path(&self) -> (p: String)
        ensures
            p@ == default_base_path(),
    {
        proof {
            reveal_strlit("127.0.0.1:3000");
        }
        "127.0.0.1:3000".to_owned()
    }
}

/// Why a configuration could not be wired to its provider. Wiring does not
/// fail yet: `Config::with_provider` always succeeds.
#[derive(Debug)]
pub enum ConfigError {
    /// The provider could not supply configuration.
    ProviderUnavailable,
}

/// Where the configuration comes from.
#[derive(PartialEq, Eq, Structural, Clone, Copy, Debug)]
pub enum ConfigProviderEnum {
    File,
    Etcd,
}

/// Static configuration of the process itself.
pub struct EnvStaticConfig;

impl EnvStaticConfig {
    /// The provider to read configuration from: the file.
    pub fn get_config_provider(&self) -> (p: ConfigProviderEnum)
        ensures
            p == ConfigProviderEnum::File,
    {
        ConfigProviderEnum::File
    }

    /// The path of the configuration file: none is configured.
    pub fn get_config_path(&self) -> (p: String)
        ensures
            p@ == "None"@,
    {
        proof {
            reveal_strlit("None");
        }
        "None".to_owned()
    }

    /// The address to listen on.
    pub fn get_listen_uri(&self) -> (u: String)
        ensures
            u@ == "127.0.0.1:80"@,
    {
        proof {
            reveal_strlit("127.0.0.1:80");
        }
        "127.0.0.1:80".to_owned()
    }
}

} // verus!
