use crate::text::{decimal, push_decimal};
use vstd::prelude::*;

verus! {

/// The settings of the id server.
pub struct ServerConfig {
    /// The logging level.
    pub log: String,
    /// The host that the server binds to.
    pub host: String,
    /// The port that the server binds to.
    pub port: u16,
    /// The host of the coordination store.
    pub etcd_host: String,
    /// The port of the coordination store.
    pub etcd_port: u16,
}

impl ServerConfig {
    /// The address of the coordination store, as `host:port`.
    pub fn get_database_addr(&self) -> (r: String)
        ensures
            r@ == self.etcd_host@ + ":"@ + decimal(self.etcd_port as nat),
    {
        proof { reveal_strlit(":"); }
        let mut addr = self.etcd_host.clone();
        addr.append(":");
        push_decimal(&mut addr, self.etcd_port as u32);
        addr
    }
}

} // verus!
