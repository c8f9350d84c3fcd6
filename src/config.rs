//! Settings read from configuration files. Every field of a file is
//! optional; the settings a component needs are complete or refused.

use vstd::prelude::*;

verus! {

/// Where the document store runs, as a configuration file gives it.
#[derive(Debug, Clone)]
pub struct DatabaseConfig {
    pub name: Option<String>,
    pub ip: Option<String>,
    pub port: Option<u16>,
}

/// The outgoing mail server, as a configuration file gives it.
#[derive(Debug, Clone)]
pub struct EmailSenderConfig {
    pub smtp_server: Option<String>,
    pub smtp_account: Option<String>,
    pub smtp_password: Option<String>,
    pub smtp_port: Option<u16>,
}

/// A complete database configuration.
#[derive(Debug, Clone)]
pub struct DatabaseSettings {
    pub name: String,
    pub ip: String,
    pub port: u16,
}

/// A complete mail server configuration.
#[derive(Debug, Clone)]
pub struct EmailSenderSettings {
    pub smtp_server: String,
    pub smtp_account: String,
    pub smtp_password: String,
    pub smtp_port: u16,
}

/// The first field found missing from a configuration.
#[derive(Debug, Clone, Copy, PartialEq, Eq, Structural)]
pub enum ConfigError {
    NameMissing,
    IpMissing,
    PortMissing,
    SmtpAccountMissing,
    SmtpPasswordMissing,
    SmtpServerMissing,
    SmtpPortMissing,
}

impl ConfigError {
    /// The message shown for this error.
    pub open spec fn text(self) -> Seq<char> {
        match self {
            ConfigError::NameMissing => "name is missing"@,
            ConfigError::IpMissing => "ip is missing"@,
            ConfigError::PortMissing => "port is missing"@,
            ConfigError::SmtpAccountMissing => "smtp_account is missing"@,
            ConfigError::SmtpPasswordMissing => "smtp_password is missing"@,
            ConfigError::SmtpServerMissing => "smtp_server is missing"@,
            ConfigError::SmtpPortMissing => "smtp_port is missing"@,
        }
    }

    /// The message shown to the operator.
    pub fn message(&self) -> (r: &'static str)
        ensures
            r@ == self.text(),
    {
        match self {
            ConfigError::NameMissing => "name is missing",
            ConfigError::IpMissing => "ip is missing",
            ConfigError::PortMissing => "port is missing",
            ConfigError::SmtpAccountMissing => "smtp_account is missing",
            ConfigError::SmtpPasswordMissing => "smtp_password is missing",
            ConfigError::SmtpServerMissing => "smtp_server is missing",
            ConfigError::SmtpPortMissing => "smtp_port is missing",
        }
    }
}

/// A copy of an optional text.
fn copy_text(t: &Option<String>) -> (r: Option<String>)
    ensures
        r == *t,
{
    match t {
        Some(s) => Some(s.clone()),
        None => None,
    }
}

impl DatabaseConfig {
    /// The complete settings, or the first of name, ip and port that is
    /// missing.
    pub fn settings(&self) -> (r: Result<DatabaseSettings, ConfigError>)
        ensures
            self.name is None ==> r == Err::<DatabaseSettings, ConfigError>(ConfigError::NameMissing),
            self.name is Some && self.ip is None ==> r == Err::<DatabaseSettings, ConfigError>(
                ConfigError::IpMissing,
            ),
            self.name is Some && self.ip is Some && self.port is None ==> r == Err::<
                DatabaseSettings,
                ConfigError,
            >(ConfigError::PortMissing),
            self.name is Some && self.ip is Some && self.port is Some ==> r == Ok::<
                DatabaseSettings,
                ConfigError,
            >(
                DatabaseSettings {
                    name: self.name->Some_0,
                    ip: self.ip->Some_0,
                    port: self.port->Some_0,
                },
            ),
    {
        let name = match copy_text(&self.name) {
            Some(n) => n,
            None => {
                return Err(ConfigError::NameMissing);
            },
        };
        let ip = match copy_text(&self.ip) {
            Some(i) => i,
            None => {
                return Err(ConfigError::IpMissing);
            },
        };
        match self.port {
            Some(port) => Ok(DatabaseSettings { name, ip, port }),
            None => Err(ConfigError::PortMissing),
        }
    }
}

impl EmailSenderConfig {
    /// The complete settings, or the first of account, password, server and
    /// port that is missing.
    pub fn settings(&self) -> (r: Result<EmailSenderSettings, ConfigError>)
        ensures
            self.smtp_account is None ==> r == Err::<EmailSenderSettings, ConfigError>(
                ConfigError::SmtpAccountMissing,
            ),
            self.smtp_account is Some && self.smtp_password is None ==> r == Err::<
                EmailSenderSettings,
                ConfigError,
            >(ConfigError::SmtpPasswordMissing),
            self.smtp_account is Some && self.smtp_password is Some && self.smtp_server is None
                ==> r == Err::<EmailSenderSettings, ConfigError>(ConfigError::SmtpServerMissing),
            self.smtp_account is Some && self.smtp_password is Some && self.smtp_server is Some
                && self.smtp_port is None ==> r == Err::<EmailSenderSettings, ConfigError>(
                ConfigError::SmtpPortMissing,
            ),
            self.smtp_account is Some && self.smtp_password is Some && self.smtp_server is Some
                && self.smtp_port is Some ==> r == Ok::<EmailSenderSettings, ConfigError>(
                EmailSenderSettings {
                    smtp_server: self.smtp_server->Some_0,
                    smtp_account: self.smtp_account->Some_0,
                    smtp_password: self.smtp_password->Some_0,
                    smtp_port: self.smtp_port->Some_0,
                },
            ),
    {
        let smtp_account = match copy_text(&self.smtp_account) {
            Some(a) => a,
            None => {
                return Err(ConfigError::SmtpAccountMissing);
            },
        };
        let smtp_password = match copy_text(&self.smtp_password) {
            Some(p) => p,
            None => {
                return Err(ConfigError::SmtpPasswordMissing);
            },
        };
        let smtp_server = match copy_text(&self.smtp_server) {
            Some(s) => s,
            None => {
                return Err(ConfigError::SmtpServerMissing);
            },
        };
        match self.smtp_port {
            Some(smtp_port) => Ok(
                EmailSenderSettings { smtp_server, smtp_account, smtp_password, smtp_port },
            ),
            None => Err(ConfigError::SmtpPortMissing),
        }
    }
}

} // verus!
