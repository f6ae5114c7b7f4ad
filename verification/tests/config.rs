use jars::config::{Config, ConfigInner, ConfigProviderEnum, EnvStaticConfig, StaticConfigProvider};
use jars::RequestForwarder;

#[test]
fn config_base_path_is_fixed() {
    let config = Config::with_provider(StaticConfigProvider::from_file("settings.toml")).unwrap();
    assert_eq!(config.base_path(), "127.0.0.1:3000");
}

#[test]
fn static_provider_from_any_text() {
    let _a = StaticConfigProvider::from_file("a.toml");
    let _b = StaticConfigProvider::from_file(String::from("b.toml"));
}

#[test]
fn config_inner_default_is_empty() {
    let inner = ConfigInner::default();
    assert_eq!(inner.base_path, "");
    assert_eq!(inner.errorpath, "");
}

#[test]
fn env_static_config_values() {
    let env = EnvStaticConfig;
    assert_eq!(env.get_config_provider(), ConfigProviderEnum::File);
    assert_eq!(env.get_config_path(), "None");
    assert_eq!(env.get_listen_uri(), "127.0.0.1:80");
}

#[test]
fn request_forwarder_keeps_store() {
    let forwarder = RequestForwarder::create(String::from("store"));
    assert_eq!(forwarder.rate_limiter(), "store");
}
