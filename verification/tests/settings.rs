//! Settings, the address to bind and the filter of the log.

use server::config::{
    IpLiteral, Settings, SocketAddress, DEFAULT_BIND_ADDRESS, DEFAULT_LOG_LEVEL, DEFAULT_PORT,
    DEFAULT_STATIC_DIR, QUIET_DIRECTIVES,
};

fn settings_with(address: &str, port: u16) -> Settings {
    Settings { bind_address: address.to_string(), port, ..Settings::default() }
}

#[test]
fn defaults_are_the_documented_ones() {
    assert_eq!(DEFAULT_LOG_LEVEL, "debug");
    assert_eq!(DEFAULT_BIND_ADDRESS, "::1");
    assert_eq!(DEFAULT_PORT, 8080);
    assert_eq!(DEFAULT_STATIC_DIR, "../dist");
    assert_eq!(Settings::default(), Settings {
        log_level: "debug".to_string(),
        bind_address: "::1".to_string(),
        port: 8080,
        static_dir: "../dist".to_string(),
    });
}

#[test]
fn invalid_addr_binds_the_ipv6_loopback() {
    let settings = settings_with("not-an-address", 8080);
    let address = settings.socket_address(None);
    assert_eq!(address, SocketAddress { ip: IpLiteral::V6(1), port: 8080 });
}

#[test]
fn default_addr_binds_the_ipv6_loopback() {
    let settings = Settings::default();
    let address = settings.socket_address(Some(IpLiteral::V6(1)));
    assert_eq!(address, SocketAddress { ip: IpLiteral::V6(1), port: 8080 });
}

#[test]
fn valid_addr_is_kept() {
    let settings = settings_with("127.0.0.1", 3000);
    let address = settings.socket_address(Some(IpLiteral::V4(0x7f00_0001)));
    assert_eq!(address, SocketAddress { ip: IpLiteral::V4(0x7f00_0001), port: 3000 });
    let settings = settings_with("::", 65535);
    let address = settings.socket_address(Some(IpLiteral::V6(0)));
    assert_eq!(address, SocketAddress { ip: IpLiteral::V6(0), port: 65535 });
    let settings = settings_with("2001:db8::2", 0);
    let address = settings.socket_address(Some(IpLiteral::V6(0x2001_0db8_0000_0000_0000_0000_0000_0002)));
    assert_eq!(address.ip, IpLiteral::V6(0x2001_0db8_0000_0000_0000_0000_0000_0002));
    assert_eq!(address.port, 0);
}

#[test]
fn log_level_seeds_the_filter() {
    assert_eq!(QUIET_DIRECTIVES, ",hyper=info,mio=info");
    assert_eq!(Settings::default().log_filter(None), "debug,hyper=info,mio=info");
    let settings = Settings { log_level: "warn".to_string(), ..Settings::default() };
    assert_eq!(settings.log_filter(None), "warn,hyper=info,mio=info");
    let settings = Settings { log_level: String::new(), ..Settings::default() };
    assert_eq!(settings.log_filter(None), ",hyper=info,mio=info");
}

#[test]
fn preset_filter_wins() {
    let settings = Settings::default();
    assert_eq!(settings.log_filter(Some("server=trace".to_string())), "server=trace");
    assert_eq!(settings.log_filter(Some(String::new())), "");
}
