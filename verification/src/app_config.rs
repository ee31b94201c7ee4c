//! The settings of the service and the connection strings made of them.

use crate::text::{decimal, push_decimal, same_text};
use vstd::prelude::*;
use vstd::string::StringExecFns;

verus! {

/// Where the service runs.
#[derive(Debug, Clone, Copy, PartialEq, Eq, Structural)]
pub enum AppEnvironment {
    Local,
    Development,
    Staging,
    Production,
    Testing,
}

impl Default for AppEnvironment {
    fn default() -> (r: AppEnvironment)
        ensures
            r == AppEnvironment::Local,
    {
        AppEnvironment::Local
    }
}

impl AppEnvironment {
    /// The name of an environment: that of the variant.
    pub open spec fn name(self) -> Seq<char> {
        match self {
            AppEnvironment::Local => "Local"@,
            AppEnvironment::Development => "Development"@,
            AppEnvironment::Staging => "Staging"@,
            AppEnvironment::Production => "Production"@,
            AppEnvironment::Testing => "Testing"@,
        }
    }

    /// The environment with the given name, if there is one.
    pub open spec fn named(name: Seq<char>) -> Option<AppEnvironment> {
        if name == "Local"@ {
            Some(AppEnvironment::Local)
        } else if name == "Development"@ {
            Some(AppEnvironment::Development)
        } else if name == "Staging"@ {
            Some(AppEnvironment::Staging)
        } else if name == "Production"@ {
            Some(AppEnvironment::Production)
        } else if name == "Testing"@ {
            Some(AppEnvironment::Testing)
        } else {
            None
        }
    }

    /// The name of this environment.
    pub fn as_str(&self) -> (r: &'static str)
        ensures
            r@ == self.name(),
    {
        match self {
            AppEnvironment::Local => "Local",
            AppEnvironment::Development => "Development",
            AppEnvironment::Staging => "Staging",
            AppEnvironment::Production => "Production",
            AppEnvironment::Testing => "Testing",
        }
    }

    /// The environment that `name` names; names are matched exactly.
    pub fn parse(name: &str) -> (r: Option<AppEnvironment>)
        ensures
            r == AppEnvironment::named(name@),
    {
        if same_text(name, "Local") {
            Some(AppEnvironment::Local)
        } else if same_text(name, "Development") {
            Some(AppEnvironment::Development)
        } else if same_text(name, "Staging") {
            Some(AppEnvironment::Staging)
        } else if same_text(name, "Production") {
            Some(AppEnvironment::Production)
        } else if same_text(name, "Testing") {
            Some(AppEnvironment::Testing)
        } else {
            None
        }
    }

    /// The environment to run in, from the setting that selects it: `Local`
    /// where nothing is set, `None` where the setting names no environment.
    pub fn detect(setting: Option<&str>) -> (r: Option<AppEnvironment>)
        ensures
            r == match setting {
                Some(name) => AppEnvironment::named(name@),
                None => Some(AppEnvironment::Local),
            },
    {
        match setting {
            Some(name) => AppEnvironment::parse(name),
            None => Some(AppEnvironment::Local),
        }
    }

    /// The name of the settings file of this environment.
    pub fn configuration_file(&self) -> (r: String)
        ensures
            r@ == "configuration."@ + self.name(),
    {
        let mut file = String::from_str("configuration.");
        file.append(self.as_str());
        file
    }
}

/// How the database is reached.
#[derive(Debug, Clone, PartialEq, Eq)]
pub struct DatabaseConfig {
    pub username: String,
    pub password: String,
    pub port: u16,
    pub host: String,
    pub database_name: String,
}

/// How the mail service is reached.
#[derive(Debug, Clone, PartialEq, Eq)]
pub struct EmailClientConfig {
    pub base_url: String,
    pub authorization_token: String,
    pub sender_email: String,
}

/// The settings of the service.
#[derive(Debug, Clone, PartialEq, Eq)]
pub struct AppConfig {
    pub environment: AppEnvironment,
    pub port: u16,
    pub host: String,
    pub base_url: String,
    pub database: DatabaseConfig,
    pub email_client: EmailClientConfig,
}

/// The connection string of a database server, without a database.
pub open spec fn server_url(
    username: Seq<char>,
    password: Seq<char>,
    host: Seq<char>,
    port: u16,
) -> Seq<char> {
    "postgres://"@ + username + ":"@ + password + "@"@ + host + ":"@ + decimal(port as nat)
}

/// The connection string of a database on a server.
pub open spec fn database_url(
    username: Seq<char>,
    password: Seq<char>,
    host: Seq<char>,
    port: u16,
    database_name: Seq<char>,
) -> Seq<char> {
    server_url(username, password, host, port) + "/"@ + database_name
}

impl DatabaseConfig {
    /// The connection string of the database.
    pub fn database_connection_string(&self) -> (r: String)
        ensures
            r@ == database_url(
                self.username@,
                self.password@,
                self.host@,
                self.port,
                self.database_name@,
            ),
    {
        let mut url = self.database_connection_string_without_db();
        url.append("/");
        url.append(self.database_name.as_str());
        url
    }

    /// The connection string of the server, naming no database.
    pub fn database_connection_string_without_db(&self) -> (r: String)
        ensures
            r@ == server_url(self.username@, self.password@, self.host@, self.port),
    {
        let mut url = String::from_str("postgres://");
        url.append(self.username.as_str());
        url.append(":");
        url.append(self.password.as_str());
        url.append("@");
        url.append(self.host.as_str());
        url.append(":");
        push_decimal(&mut url, self.port);
        url
    }
}

impl AppConfig {
    /// The connection string of the service's database.
    pub fn database_connection_string(&self) -> (r: String)
        ensures
            r@ == database_url(
                self.database.username@,
                self.database.password@,
                self.database.host@,
                self.database.port,
                self.database.database_name@,
            ),
    {
        self.database.database_connection_string()
    }
}

} // verus!
