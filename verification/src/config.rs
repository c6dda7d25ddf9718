//! The connection configuration the core depends on: the server's address
//! and port. These are the only externally configurable values; a
//! deployment may load others from its environment and construct the value
//! itself.

use vstd::prelude::*;

verus! {

/// The default server port.
pub const DEFAULT_SERVER_PORT: u16 = 5000;

/// Where the client connects and the server binds.
pub struct GameConfig {
    /// The server host address, as text.
    pub server_addr: String,
    pub server_port: u16,
}

impl GameConfig {
    /// A usable configuration names a host and a nonzero port.
    pub open spec fn wf(self) -> bool {
        &&& self.server_addr@.len() > 0
        &&& self.server_port != 0
    }

    /// The built-in development configuration: the local host on the
    /// default port.
    pub fn get() -> (r: GameConfig)
        ensures
            r.server_addr@ == "127.0.0.1"@,
            r.server_port == DEFAULT_SERVER_PORT,
            r.wf(),
    {
        proof {
            reveal_strlit("127.0.0.1");
        }
        GameConfig { server_addr: String::from_str("127.0.0.1"), server_port: DEFAULT_SERVER_PORT }
    }

    /// A configuration from explicit values; rejects an empty host or a
    /// zero port.
    pub fn from_values(server_addr: String, server_port: u16) -> (r: Option<GameConfig>)
        ensures
            match r {
                Some(c) => c.server_addr@ == server_addr@ && c.server_port == server_port
                    && c.wf(),
                None => server_addr@.len() == 0 || server_port == 0,
            },
    {
        if server_addr.as_str().unicode_len() == 0 || server_port == 0 {
            None
        } else {
            Some(GameConfig { server_addr, server_port })
        }
    }
}

} // verus!
