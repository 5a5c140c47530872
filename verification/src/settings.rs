//! Runtime settings of the signaling server.

use vstd::prelude::*;

verus! {

/// Port the signaling server binds when none is given.
pub const DEFAULT_PORT: u16 = 8080;

/// Address the signaling server binds when none is given: every interface.
pub open spec fn default_host() -> Seq<char> {
    "0.0.0.0"@
}

/// Where the signaling server listens, and how much it logs.
pub struct Settings {
    /// Address to bind.
    pub host: String,
    /// Port to bind.
    pub port: u16,
    /// Whether debug lines are logged.
    pub debug: bool,
}

impl Settings {
    /// Settings made of the three values as given.
    pub fn new(host: String, port: u16, debug: bool) -> (settings: Settings)
        ensures
            settings.host == host,
            settings.port == port,
            settings.debug == debug,
    {
        Settings { host, port, debug }
    }
}

impl Default for Settings {
    /// The settings of a server started without arguments.
    fn default() -> (settings: Settings)
        ensures
            settings.host@ == default_host(),
            settings.port == DEFAULT_PORT,
            !settings.debug,
    {
        Settings { host: "0.0.0.0".to_owned(), port: DEFAULT_PORT, debug: false }
    }
}

} // verus!
