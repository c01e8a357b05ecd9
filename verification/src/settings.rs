//! Runtime settings and their defaults.
use vstd::prelude::*;

verus! {

#[derive(Debug, Clone)]
pub struct ServerConfig {
    pub bind_address: String,
    pub port: u16,
    pub udp_bind_address: String,
    pub udp_port: u16,
    pub enable_queuez: bool,
    pub max_connections: usize,
}

impl Default for ServerConfig {
    /// Loopback only: the BAP service on 7777, game state on UDP 7778, QueueZ
    /// answered, at most 64 connections.
    fn default() -> (c: Self)
        ensures
            c.bind_address@ == "127.0.0.1"@,
            c.port == 7777,
            c.udp_bind_address@ == "127.0.0.1"@,
            c.udp_port == 7778,
            c.enable_queuez,
            c.max_connections == 64,
    {
        ServerConfig {
            bind_address: "127.0.0.1".to_owned(),
            port: 7777,
            udp_bind_address: "127.0.0.1".to_owned(),
            udp_port: 7778,
            enable_queuez: true,
            max_connections: 64,
        }
    }
}

#[derive(Debug, Clone)]
pub struct SunriseSettings {
    pub version: String,
    pub server: ServerConfig,
    pub auto_unlock_entitlements: bool,
    pub default_power_cap: u32,
}

impl Default for SunriseSettings {
    /// Version 0.6.5, the default server, entitlements unlocked, a power cap
    /// of 1000.
    fn default() -> (s: Self)
        ensures
            s.version@ == "0.6.5"@,
            s.server.bind_address@ == "127.0.0.1"@,
            s.server.port == 7777,
            s.server.udp_bind_address@ == "127.0.0.1"@,
            s.server.udp_port == 7778,
            s.server.enable_queuez,
            s.server.max_connections == 64,
            s.auto_unlock_entitlements,
            s.default_power_cap == 1000,
    {
        SunriseSettings {
            version: "0.6.5".to_owned(),
            server: ServerConfig::default(),
            auto_unlock_entitlements: true,
            default_power_cap: 1000,
        }
    }
}

} // verus!
