use vstd::prelude::*;
use vstd::string::StringExecFns;

verus! {

/// Settings of the relay server.
#[derive(Debug, Clone, PartialEq)]
pub struct Config {
    pub server: ServerConfig,
    pub database: DatabaseConfig,
    pub auth: AuthConfig,
    pub smtp: SmtpConfig,
}

#[derive(Debug, Clone, PartialEq)]
pub struct ServerConfig {
    pub host: String,
    pub port: u16,
}

#[derive(Debug, Clone, PartialEq)]
pub struct DatabaseConfig {
    pub path: String,
}

#[derive(Debug, Clone, PartialEq)]
pub struct AuthConfig {
    pub jwt_secret: String,
    pub token_expiry_hours: u64,
}

#[derive(Debug, Clone, PartialEq)]
pub struct SmtpConfig {
    pub enabled: bool,
    pub use_sendmail: bool,
    pub host: String,
    pub port: u16,
    pub username: String,
    pub password: String,
    pub from_email: String,
    pub from_name: String,
}

/// The value of a switch that a settings file leaves out.
pub fn default_true() -> (r: bool)
    ensures
        r,
{
    true
}

/// The mail submission port used when a settings file names none.
pub fn default_smtp_port() -> (r: u16)
    ensures
        r == 587,
{
    587
}

impl Default for SmtpConfig {
    /// Mail through the local sendmail, enabled.
    fn default() -> (r: SmtpConfig)
        ensures
            r.enabled,
            r.use_sendmail,
            r.host@ == ""@,
            r.port == 587,
            r.username@ == ""@,
            r.password@ == ""@,
            r.from_email@ == "noreply@apas.mpaxos.com"@,
            r.from_name@ == "APAS"@,
    {
        SmtpConfig {
            enabled: default_true(),
            use_sendmail: true,
            host: String::from_str(""),
            port: default_smtp_port(),
            username: String::from_str(""),
            password: String::from_str(""),
            from_email: String::from_str("noreply@apas.mpaxos.com"),
            from_name: String::from_str("APAS"),
        }
    }
}

impl Default for Config {
    /// Listen on all interfaces at port 8080, keep the database under
    /// `./data`, tokens valid for a day.
    fn default() -> (r: Config)
        ensures
            r.server.host@ == "0.0.0.0"@,
            r.server.port == 8080,
            r.database.path@ == "./data/apas.db"@,
            r.auth.jwt_secret@ == "change-me-in-production"@,
            r.auth.token_expiry_hours == 24,
            r.smtp.enabled,
            r.smtp.port == 587,
    {
        Config {
            server: ServerConfig { host: String::from_str("0.0.0.0"), port: 8080 },
            database: DatabaseConfig { path: String::from_str("./data/apas.db") },
            auth: AuthConfig { jwt_secret: String::from_str("change-me-in-production"), token_expiry_hours: 24 },
            smtp: SmtpConfig::default(),
        }
    }
}

} // verus!
