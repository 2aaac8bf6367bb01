//! The configuration that the host application starts its TURN server with.
use vstd::prelude::*;
use vstd::string::*;

use crate::portmap::SocketV4;

verus! {

/// The transport of a TURN interface.
#[derive(Clone, Copy, Debug, PartialEq, Eq, Structural)]
pub enum Transport {
    Udp,
    Tcp,
}

/// The log level of the TURN server.
#[derive(Clone, Copy, Debug, PartialEq, Eq, Structural)]
pub enum LogLevel {
    Error,
    Warn,
    Info,
    Debug,
    Trace,
}

/// The log level that the host application runs with.
pub fn log_level() -> (l: LogLevel)
    ensures
        l == LogLevel::Trace,
{
    LogLevel::Trace
}

/// An interface that the TURN server listens on: the local address it binds
/// and the external address that clients reach it at.
#[derive(Clone, Copy, Debug, PartialEq, Eq, Structural)]
pub struct TurnInterface {
    pub transport: Transport,
    pub bind: SocketV4,
    pub external: SocketV4,
}

/// The TURN server's configuration.
#[derive(Clone, Debug, PartialEq, Eq)]
pub struct TurnConfig {
    pub realm: String,
    pub interfaces: Vec<TurnInterface>,
    /// Where the server's HTTP API listens.
    pub api_bind: SocketV4,
    pub log_level: LogLevel,
    /// Fixed user names with their passwords.
    pub static_credentials: Vec<(String, String)>,
    /// The shared secret of the REST authentication scheme.
    pub static_auth_secret: Option<String>,
}

/// `127.0.0.1` as a number.
pub const LOCALHOST_IPV4: u32 = 0x7f000001;

/// The port of the TURN server's HTTP API.
pub const API_PORT: u16 = 3003;

/// The configuration for a TURN server on local port `local_port` that
/// clients reach at `external`: one TCP interface bound on all local
/// addresses, the API on the loopback, no fixed users, and a shared secret.
pub fn default_turn_config(local_port: u16, external: SocketV4) -> (c: TurnConfig)
    ensures
        c.realm@ == "localhost"@,
        c.interfaces@ == seq![
            TurnInterface {
                transport: Transport::Tcp,
                bind: SocketV4 { ip: 0, port: local_port },
                external,
            },
        ],
        c.api_bind == (SocketV4 { ip: LOCALHOST_IPV4, port: API_PORT }),
        c.log_level == LogLevel::Trace,
        c.static_credentials@.len() == 0,
        c.static_auth_secret matches Some(s) && s@ == "some_password_123"@,
{
    let mut interfaces: Vec<TurnInterface> = Vec::new();
    interfaces.push(
        TurnInterface {
            transport: Transport::Tcp,
            bind: SocketV4 { ip: 0, port: local_port },
            external,
        },
    );
    TurnConfig {
        realm: String::from_str("localhost"),
        interfaces,
        api_bind: SocketV4 { ip: LOCALHOST_IPV4, port: API_PORT },
        log_level: log_level(),
        static_credentials: Vec::new(),
        static_auth_secret: Some(String::from_str("some_password_123")),
    }
}

} // verus!
