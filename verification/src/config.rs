//! The settings of the service.

use vstd::prelude::*;

verus! {

/// The settings that the environment may override.
#[derive(Debug, Clone, Copy, PartialEq, Eq, Structural)]
pub struct Config {
    /// The port the web server listens on.
    pub port: u16,
    /// The time to live of the cache, in seconds, after which it is refreshed.
    pub ttl: u32,
}

impl Default for Config {
    /// Port 3030 and a time to live of 45 minutes.
    fn default() -> (config: Config)
        ensures
            config == (Config { port: 3030, ttl: 2700 }),
    {
        Config { port: 3030, ttl: 2700 }
    }
}

} // verus!
