//! The server's settings, their defaults, and the two rules that turn
//! settings into what the runtime starts with: the address to bind and the
//! filter of the log.

use vstd::prelude::*;
use vstd::string::StringExecFns;

verus! {

/// Log level where none is given.
pub const DEFAULT_LOG_LEVEL: &'static str = "debug";

/// Bind address where none is given: the IPv6 loopback address.
pub const DEFAULT_BIND_ADDRESS: &'static str = "::1";

/// Port where none is given.
pub const DEFAULT_PORT: u16 = 8080;

/// Static directory where none is given.
pub const DEFAULT_STATIC_DIR: &'static str = "../dist";

/// Directives that follow the log level in the filter that the level seeds.
/// They keep two chatty subsystems at `info`.
pub const QUIET_DIRECTIVES: &'static str = ",hyper=info,mio=info";

/// What the server is started with. Made once, read-only afterwards.
#[derive(Debug, PartialEq, Eq)]
pub struct Settings {
    /// Verbosity of the log.
    pub log_level: String,
    /// The address to bind, as it was written: an IPv4 or IPv6 literal.
    pub bind_address: String,
    /// The port to bind.
    pub port: u16,
    /// The directory whose files are served.
    pub static_dir: String,
}

/// What [`Settings`] say, with each text as a sequence of characters.
pub struct SettingsView {
    pub log_level: Seq<char>,
    pub bind_address: Seq<char>,
    pub port: u16,
    pub static_dir: Seq<char>,
}

impl View for Settings {
    type V = SettingsView;

    open spec fn view(&self) -> SettingsView {
        SettingsView {
            log_level: self.log_level@,
            bind_address: self.bind_address@,
            port: self.port,
            static_dir: self.static_dir@,
        }
    }
}

impl SettingsView {
    /// The settings of a server that is started without any option.
    pub open spec fn defaults() -> SettingsView {
        SettingsView {
            log_level: DEFAULT_LOG_LEVEL@,
            bind_address: DEFAULT_BIND_ADDRESS@,
            port: DEFAULT_PORT,
            static_dir: DEFAULT_STATIC_DIR@,
        }
    }
}

impl Default for Settings {
    /// The settings of a server that is started without any option.
    fn default() -> (settings: Settings)
        ensures
            settings@ == SettingsView::defaults(),
    {
        Settings {
            log_level: DEFAULT_LOG_LEVEL.to_owned(),
            bind_address: DEFAULT_BIND_ADDRESS.to_owned(),
            port: DEFAULT_PORT,
            static_dir: DEFAULT_STATIC_DIR.to_owned(),
        }
    }
}

/// An IP address as one number, its first octet in the highest bits.
#[derive(Clone, Copy, Debug, PartialEq, Eq, Structural)]
pub enum IpLiteral {
    V4(u32),
    V6(u128),
}

/// An address and a port to listen on.
#[derive(Clone, Copy, Debug, PartialEq, Eq, Structural)]
pub struct SocketAddress {
    pub ip: IpLiteral,
    pub port: u16,
}

/// The IPv6 loopback address, `::1`.
pub open spec fn ipv6_loopback() -> IpLiteral {
    IpLiteral::V6(1)
}

/// The address to bind, given what parsing the configured address as an IP
/// literal gave: the parsed address, or the IPv6 loopback address where the
/// text is no IP literal (`None`).
pub open spec fn bind_ip_of(parsed: Option<IpLiteral>) -> IpLiteral {
    match parsed {
        Some(ip) => ip,
        None => ipv6_loopback(),
    }
}

/// The filter of the log: a filter that is already set in the process
/// environment is kept as it is; otherwise the log level seeds one, followed
/// by [`QUIET_DIRECTIVES`].
pub open spec fn log_filter_of(preset: Option<Seq<char>>, log_level: Seq<char>) -> Seq<char> {
    match preset {
        Some(filter) => filter,
        None => log_level + QUIET_DIRECTIVES@,
    }
}

impl Settings {
    /// The socket address to listen on, given what parsing `bind_address` as
    /// an IP literal gave. A configured address that is no IP literal
    /// (`None`) does not stop the server: it then binds the IPv6 loopback
    /// address.
    pub fn socket_address(&self, parsed: Option<IpLiteral>) -> (address: SocketAddress)
        ensures
            address == (SocketAddress { ip: bind_ip_of(parsed), port: self.port }),
    {
        let ip = match parsed {
            Some(ip) => ip,
            None => IpLiteral::V6(1),
        };
        SocketAddress { ip, port: self.port }
    }

    /// The filter of the log for these settings, given the filter that is set
    /// in the process environment, if any.
    pub fn log_filter(&self, preset: Option<String>) -> (filter: String)
        ensures
            filter@ == log_filter_of(
                match preset {
                    Some(text) => Some(text@),
                    None => None,
                },
                self.log_level@,
            ),
    {
        match preset {
            Some(filter) => filter,
            None => self.log_level.clone().concat(QUIET_DIRECTIVES),
        }
    }
}

} // verus!
