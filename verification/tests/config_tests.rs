use resend_mcp::Transport;
use resend_mcp::config::{
    ConfigError, RawConfig, bind_address_text, default_base_url, default_bind_address,
    default_transport_text, parse_port, parse_transport, port_to_text, validate, DEFAULT_PORT,
};

fn raw(api_key: &str, base_url: &str, port: &str, transport: &str, no_health_check: bool) -> RawConfig {
    RawConfig {
        api_key: api_key.to_string(),
        base_url: base_url.to_string(),
        bind_address: default_bind_address().to_string(),
        port: port.to_string(),
        transport: transport.to_string(),
        no_health_check,
    }
}

#[test]
fn defaults_are_the_documented_ones() {
    assert_eq!(default_base_url(), "https://api.resend.com");
    assert_eq!(default_bind_address(), "127.0.0.1");
    assert_eq!(default_transport_text(), "stdio");
    assert_eq!(DEFAULT_PORT, 8080);
}

#[test]
fn valid_settings_never_raise_config_error() {
    let r = validate(raw("k", "https://api.resend.com", "8080", "stdio", false));
    let s = r.expect("valid raw configuration must validate");
    assert_eq!(s.api_key, "k");
    assert_eq!(s.base_url, "https://api.resend.com");
    assert_eq!(s.bind_address, "127.0.0.1");
    assert_eq!(s.port, 8080);
    assert_eq!(s.transport, Transport::Stdio);
    assert!(s.health_check);
}

#[test]
fn missing_credential_always_raises_config_error() {
    let r = validate(raw("", "https://api.resend.com", "8080", "http", false));
    assert_eq!(r.unwrap_err(), ConfigError::MissingApiKey);
}

#[test]
fn invalid_port_is_rejected() {
    assert_eq!(
        validate(raw("k", "https://api.resend.com", "99999", "stdio", false)).unwrap_err(),
        ConfigError::InvalidPort
    );
    assert_eq!(
        validate(raw("k", "https://api.resend.com", "80a0", "stdio", false)).unwrap_err(),
        ConfigError::InvalidPort
    );
    assert_eq!(
        validate(raw("k", "https://api.resend.com", "", "stdio", false)).unwrap_err(),
        ConfigError::InvalidPort
    );
}

#[test]
fn invalid_transport_is_rejected() {
    assert_eq!(
        validate(raw("k", "https://api.resend.com", "8080", "tcp", false)).unwrap_err(),
        ConfigError::InvalidTransport
    );
}

#[test]
fn invalid_base_url_is_rejected() {
    // Would not fail if the URL wrapper reported every string as well-formed.
    assert_eq!(
        validate(raw("k", "not a url", "8080", "stdio", false)).unwrap_err(),
        ConfigError::InvalidBaseUrl
    );
}

#[test]
fn health_check_flag_is_carried_over() {
    let s = validate(raw("k", "https://api.resend.com", "8080", "stdio", true)).unwrap();
    assert!(!s.health_check);
}

#[test]
fn parse_port_exact_values() {
    assert_eq!(parse_port("0"), Some(0));
    assert_eq!(parse_port("8080"), Some(8080));
    assert_eq!(parse_port("65535"), Some(65535));
    assert_eq!(parse_port("65536"), None);
    assert_eq!(parse_port("007"), Some(7));
    assert_eq!(parse_port(""), None);
    assert_eq!(parse_port("-1"), None);
}

#[test]
fn parse_transport_exact_values() {
    assert_eq!(parse_transport("stdio"), Some(Transport::Stdio));
    assert_eq!(parse_transport("http"), Some(Transport::Http));
    assert_eq!(parse_transport("STDIO"), None);
    assert_eq!(parse_transport(""), None);
}

#[test]
fn ports_print_as_decimal_text() {
    assert_eq!(port_to_text(0), "0");
    assert_eq!(port_to_text(8080), "8080");
    assert_eq!(port_to_text(65535), "65535");
    assert_eq!(parse_port(&port_to_text(443)), Some(443));
}

#[test]
fn the_bind_address_joins_address_and_port() {
    assert_eq!(bind_address_text("127.0.0.1", 8080), "127.0.0.1:8080");
    assert_eq!(bind_address_text("0.0.0.0", 80), "0.0.0.0:80");
}

#[test]
fn diagnostics_name_the_fault() {
    assert!(ConfigError::MissingApiKey.diagnostic().contains("RESEND_API_KEY"));
    assert!(ConfigError::InvalidPort.diagnostic().contains("port"));
}
