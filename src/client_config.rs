use vstd::prelude::*;

verus! {

/// Settings of the local supervisor.
#[derive(Debug, Clone, PartialEq)]
pub struct Config {
    pub remote: RemoteConfig,
    pub local: LocalConfig,
}

/// Where the relay server is and the credential for it.
#[derive(Debug, Clone, PartialEq)]
pub struct RemoteConfig {
    pub server: Option<String>,
    pub token: Option<String>,
}

/// How the agent is started.
#[derive(Debug, Clone, PartialEq)]
pub struct LocalConfig {
    pub claude_path: String,
}

impl Default for RemoteConfig {
    /// No server and no credential.
    fn default() -> (r: RemoteConfig)
        ensures
            r.server is None,
            r.token is None,
    {
        RemoteConfig { server: None, token: None }
    }
}

} // verus!
