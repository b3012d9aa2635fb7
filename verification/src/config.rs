//! Immutable server configuration shared by every connection task.

use vstd::prelude::*;

verus! {

/// The host the listener binds to and the port it listens on for login
/// connections. A value is constructed once, before the listener starts,
/// and is read-only from then on: tasks receive clones, never the original.
pub struct ServerConfig {
    server_ip: String,
    login_port: u16,
}

impl ServerConfig {
    /// The configured host, as a sequence of characters.
    pub closed spec fn ip_spec(&self) -> Seq<char> {
        self.server_ip@
    }

    /// The configured login port.
    pub closed spec fn port_spec(&self) -> u16 {
        self.login_port
    }

    /// Do two configurations hold the same host and port? Clones handed to
    /// connection tasks are value-equal to their source in this sense.
    pub open spec fn value_eq(self, other: ServerConfig) -> bool {
        self.ip_spec() == other.ip_spec() && self.port_spec() == other.port_spec()
    }

    pub fn new(server_ip: String, login_port: u16) -> (cfg: ServerConfig)
        ensures
            cfg.ip_spec() == server_ip@,
            cfg.port_spec() == login_port,
    {
        ServerConfig { server_ip, login_port }
    }

    pub fn get_server_ip(&self) -> (ip: &String)
        ensures
            ip@ == self.ip_spec(),
    {
        &self.server_ip
    }

    pub fn get_login_port(&self) -> (port: u16)
        ensures
            port == self.port_spec(),
    {
        self.login_port
    }
}

impl Clone for ServerConfig {
    /// A clone observes exactly the host and port of the original: shared
    /// read-only state, never a divergent copy.
    fn clone(&self) -> (cloned: Self)
        ensures
            cloned.ip_spec() == self.ip_spec(),
            cloned.port_spec() == self.port_spec(),
    {
        ServerConfig { server_ip: self.server_ip.clone(), login_port: self.login_port }
    }
}

} // verus!
