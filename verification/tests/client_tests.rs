use feedcfg::client::validate_proxy;
use feedcfg::config::{Config, ConfigError};

fn load(text: &str) -> Config {
    Config::from_slice(text.as_bytes()).unwrap()
}

#[test]
fn no_proxy_derives_a_client_config() {
    let cfg = load("token: secret\nredis_url: r\nfeeds: {}\n");
    let api = cfg.get_api_config().unwrap();
    assert_eq!(api.token, "secret");
    assert_eq!(api.proxy, None);
}

#[test]
fn valid_proxy_is_attached() {
    let cfg = load("token: t\nproxy: socks5://127.0.0.1:9050\nredis_url: r\nfeeds: {}\n");
    let api = cfg.get_api_config().unwrap();
    assert_eq!(api.proxy, Some("socks5://127.0.0.1:9050".to_owned()));
}

#[test]
fn proxy_without_scheme_fails_derivation_but_not_load() {
    let cfg = Config::from_slice(
        "token: t\nproxy: 127.0.0.1:3128\nredis_url: r\nfeeds: {}\n".as_bytes(),
    );
    let cfg = cfg.expect("the load itself must succeed");
    let r = cfg.get_api_config();
    assert!(matches!(r, Err(ConfigError::ProxyAddress(_))));
}

#[test]
fn proxy_validation_checks_scheme_and_remainder() {
    assert!(validate_proxy("http://proxy.example:80"));
    assert!(validate_proxy("https://proxy.example"));
    assert!(validate_proxy("socks5://h"));
    assert!(!validate_proxy("http://"));
    assert!(!validate_proxy("ftp://proxy.example"));
    assert!(!validate_proxy("proxy.example:80"));
    assert!(!validate_proxy(""));
}
