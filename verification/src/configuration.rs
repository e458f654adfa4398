//! The settings of the service, and what is computed from them. Reading
//! them from files and from the environment is left to the program.

use crate::domain::subscriber_email::is_valid_email;
use crate::domain::{SubscriberEmail, ValidationError};
use crate::secret::{secret_text, SecretText};
use crate::text::{decimal, lowercase, push_decimal};
use vstd::prelude::*;
use vstd::std_specs::convert::TryFromSpecImpl;

verus! {

/// Where the service listens.
pub struct AppSettings {
    port: u16,
    host: String,
}

impl AppSettings {
    /// The settings for a service that listens on `host` at `port`.
    pub fn new(host: String, port: u16) -> (settings: AppSettings)
        ensures
            settings.host_text() == host@,
            settings.port_number() == port,
    {
        AppSettings { port, host }
    }

    /// The host, as plain text.
    pub closed spec fn host_text(&self) -> Seq<char> {
        self.host@
    }

    /// The port.
    pub closed spec fn port_number(&self) -> u16 {
        self.port
    }

    /// The host to listen on.
    pub fn host(&self) -> (host: &str)
        ensures
            host@ == self.host_text(),
    {
        self.host.as_str()
    }

    /// The port to listen at.
    pub fn port(&self) -> (port: u16)
        ensures
            port == self.port_number(),
    {
        self.port
    }
}

/// How the connection to the database is secured.
#[derive(Debug, Clone, Copy, PartialEq, Eq, Structural)]
pub enum SslMode {
    /// Encrypted where the server offers it.
    Prefer,
    /// Encrypted, or not at all.
    Require,
}

/// What a connection to the database server is opened with, as plain values.
pub struct ConnectOptionsView {
    pub host: Seq<char>,
    pub username: Seq<char>,
    pub password: Seq<char>,
    pub port: u16,
    pub ssl_mode: SslMode,
    pub database: Option<Seq<char>>,
}

/// What a connection to the database server is opened with.
pub struct ConnectOptions {
    pub host: String,
    pub username: String,
    pub password: SecretText,
    pub port: u16,
    pub ssl_mode: SslMode,
    /// The database to use; none to reach the server alone.
    pub database: Option<String>,
}

impl View for ConnectOptions {
    type V = ConnectOptionsView;

    open spec fn view(&self) -> ConnectOptionsView {
        ConnectOptionsView {
            host: self.host@,
            username: self.username@,
            password: secret_text(self.password),
            port: self.port,
            ssl_mode: self.ssl_mode,
            database: match self.database {
                Some(name) => Some(name@),
                None => None,
            },
        }
    }
}

/// Where the database is, and who asks.
pub struct DatabaseSettings {
    pub username: String,
    pub password: SecretText,
    pub port: u16,
    pub host: String,
    pub database_name: String,
    pub require_ssl: bool,
}

impl DatabaseSettings {
    /// The options of these settings, with `database` as the database.
    pub open spec fn options(&self, database: Option<Seq<char>>) -> ConnectOptionsView {
        ConnectOptionsView {
            host: self.host@,
            username: self.username@,
            password: secret_text(self.password),
            port: self.port,
            ssl_mode: if self.require_ssl {
                SslMode::Require
            } else {
                SslMode::Prefer
            },
            database,
        }
    }

    /// The options for a connection to the server, with no database chosen.
    /// Encryption is required where the settings say so and preferred
    /// otherwise.
    pub fn without_db(&self) -> (options: ConnectOptions)
        ensures
            options@ == self.options(None),
    {
        let ssl_mode = if self.require_ssl {
            SslMode::Require
        } else {
            SslMode::Prefer
        };
        ConnectOptions {
            host: self.host.clone(),
            username: self.username.clone(),
            password: self.password.clone(),
            port: self.port,
            ssl_mode,
            database: None,
        }
    }

    /// The options for a connection to the database of these settings.
    pub fn with_db(&self) -> (options: ConnectOptions)
        ensures
            options@ == self.options(Some(self.database_name@)),
    {
        let mut options = self.without_db();
        options.database = Some(self.database_name.clone());
        options
    }
}

/// How the e-mail provider is reached.
pub struct EmailClientSettings {
    pub base_url: String,
    pub sender_email: String,
    pub auth_token: SecretText,
}

impl EmailClientSettings {
    /// The sender's address, validated.
    pub fn sender(&self) -> (r: Result<SubscriberEmail, ValidationError>)
        ensures
            match r {
                Ok(sender) => sender@ == self.sender_email@ && is_valid_email(self.sender_email@),
                Err(e) => e == ValidationError::MalformedEmail && !is_valid_email(
                    self.sender_email@,
                ),
            },
    {
        SubscriberEmail::parse(self.sender_email.clone())
    }
}

/// All settings of the service.
pub struct Settings {
    pub database: DatabaseSettings,
    pub app: AppSettings,
    pub email_client: EmailClientSettings,
}

impl Settings {
    /// The address to listen on: the host, a colon, and the port in decimal.
    pub fn addr(&self) -> (addr: String)
        ensures
            addr@ == self.app.host_text() + seq![':'] + decimal(self.app.port_number() as nat),
    {
        let mut addr = self.app.host.clone();
        addr.push(':');
        push_decimal(&mut addr, self.app.port);
        assert(addr@ =~= self.app.host_text() + seq![':'] + decimal(self.app.port_number() as nat));
        addr
    }
}

/// The environment that the service runs in; it picks the settings file.
#[derive(Debug, Clone, Copy, PartialEq, Eq, Structural)]
pub enum Environment {
    Local,
    Production,
}

/// What is said of a name that is no environment.
pub open spec fn unsupported(name: Seq<char>) -> Seq<char> {
    name + " is not a supported environment\nUse either `local` or `production`"@
}

/// The environment that the lower-case name `name` stands for.
pub open spec fn environment_named(name: Seq<char>) -> Result<Environment, Seq<char>> {
    if name == "local"@ {
        Ok(Environment::Local)
    } else if name == "production"@ {
        Ok(Environment::Production)
    } else {
        Err(unsupported(name))
    }
}

impl Environment {
    /// The name of the environment, as text.
    pub open spec fn name(self) -> Seq<char> {
        match self {
            Environment::Local => "local"@,
            Environment::Production => "production"@,
        }
    }

    /// The name of the environment.
    pub fn as_str(&self) -> (name: &'static str)
        ensures
            name@ == self.name(),
    {
        match self {
            Self::Local => "local",
            Self::Production => "production",
        }
    }

    /// The environment that `name` stands for, where `name` is in lower
    /// case already; or what to tell whoever chose the name.
    pub fn from_name(name: &str) -> (r: Result<Environment, String>)
        ensures
            match r {
                Ok(environment) => environment_named(name@) == Ok::<Environment, Seq<char>>(
                    environment,
                ),
                Err(message) => environment_named(name@) == Err::<Environment, Seq<char>>(
                    message@,
                ),
            },
    {
        proof {
            reveal_strlit("local");
            reveal_strlit("production");
        }
        if name.eq("local") {
            Ok(Self::Local)
        } else if name.eq("production") {
            Ok(Self::Production)
        } else {
            let mut message = name.to_owned();
            message.append(" is not a supported environment\nUse either `local` or `production`");
            Err(message)
        }
    }

    /// The environment for the value of the variable that chooses it: the
    /// one that the value names, and the local one where the variable is
    /// not set.
    pub fn from_variable(value: Option<String>) -> (r: Result<Environment, String>)
        ensures
            match value {
                None => r == Ok::<Environment, String>(Environment::Local),
                Some(s) => match r {
                    Ok(environment) => environment_named(lowercase(s@)) == Ok::<
                        Environment,
                        Seq<char>,
                    >(environment),
                    Err(message) => environment_named(lowercase(s@)) == Err::<
                        Environment,
                        Seq<char>,
                    >(message@),
                },
            },
    {
        match value {
            None => Ok(Environment::Local),
            Some(s) => Environment::try_from(s),
        }
    }

    /// The settings file of this environment: its name and `.toml`.
    pub fn file_name(&self) -> (file: String)
        ensures
            file@ == self.name() + ".toml"@,
    {
        let mut file = self.as_str().to_owned();
        file.append(".toml");
        file
    }
}

impl TryFromSpecImpl<String> for Environment {
    open spec fn obeys_try_from_spec() -> bool {
        false
    }

    open spec fn try_from_spec(s: String) -> Result<Environment, String> {
        Err(s)
    }
}

impl TryFrom<String> for Environment {
    type Error = String;

    /// The environment that `s` names, in whatever case it is written.
    fn try_from(s: String) -> (r: Result<Environment, String>)
        ensures
            match r {
                Ok(environment) => environment_named(lowercase(s@)) == Ok::<
                    Environment,
                    Seq<char>,
                >(environment),
                Err(message) => environment_named(lowercase(s@)) == Err::<
                    Environment,
                    Seq<char>,
                >(message@),
            },
    {
        let name = s.as_str().to_lowercase();
        Environment::from_name(name.as_str())
    }
}

} // verus!
