//! The configuration of the application, as made from the values of its environment.

use crate::text::{lowercase, owned, parse_i32, parse_u16, parsed_i32, parsed_u16, same_text};
use vstd::prelude::*;

verus! {

/// The whole configuration.
#[derive(Debug, Clone)]
pub struct AppConfig {
    pub cosmos: CosmosConfig,
    pub server: ServerConfig,
    pub auth: AuthConfig,
}

/// How the document store is reached, and which containers it has, each filed under the
/// name of what it holds.
#[derive(Debug, Clone)]
pub struct CosmosConfig {
    pub uri: String,
    pub database_name: String,
    pub containers: Vec<(String, ContainerConfig)>,
    pub primary_key: String,
}

/// One container of the document store.
#[derive(Debug, Clone)]
pub struct ContainerConfig {
    pub name: String,
    pub partition_key: String,
    pub throughput: Option<i32>,
}

/// Where the server listens.
#[derive(Debug, Clone)]
pub struct ServerConfig {
    pub host: String,
    pub port: u16,
}

/// What authentication needs.
#[derive(Debug, Clone)]
pub struct AuthConfig {
    pub jwt_secret: String,
}

/// The variables of the environment that the configuration is made from, each with its
/// value where it is set.
#[derive(Debug, Clone)]
pub struct Environment {
    pub cosmos_db_uri: Option<String>,
    pub cosmos_db_database: Option<String>,
    pub cosmos_db_key: Option<String>,
    pub jwt_secret: Option<String>,
    pub cosmos_users_container_name: Option<String>,
    pub cosmos_users_container_throughput: Option<String>,
    pub server_host: Option<String>,
    pub server_port: Option<String>,
}

/// A variable that the configuration cannot do without.
#[derive(Debug, Clone, Copy, PartialEq, Eq)]
pub enum RequiredVariable {
    CosmosDbUri,
    CosmosDbDatabase,
    CosmosDbKey,
    JwtSecret,
}

/// Why no configuration could be made.
#[derive(Debug, Clone, Copy, PartialEq, Eq)]
pub enum ConfigError {
    /// A required variable is not set.
    Missing(RequiredVariable),
}

impl ConfigError {
    /// The error in words.
    pub open spec fn message_spec(self) -> Seq<char> {
        match self {
            ConfigError::Missing(RequiredVariable::CosmosDbUri) => "COSMOS_DB_URI environment variable not set"@,
            ConfigError::Missing(RequiredVariable::CosmosDbDatabase) => "COSMOS_DB_DATABASE environment variable not set"@,
            ConfigError::Missing(RequiredVariable::CosmosDbKey) => "COSMOS_DB_KEY environment variable not set. This is required for development."@,
            ConfigError::Missing(RequiredVariable::JwtSecret) => "JWT_SECRET environment variable not set. This is required for authentication."@,
        }
    }

    /// The error in words.
    pub fn message(&self) -> (text: String)
        ensures
            text@ == self.message_spec(),
    {
        match self {
            ConfigError::Missing(RequiredVariable::CosmosDbUri) => owned(
                "COSMOS_DB_URI environment variable not set",
            ),
            ConfigError::Missing(RequiredVariable::CosmosDbDatabase) => owned(
                "COSMOS_DB_DATABASE environment variable not set",
            ),
            ConfigError::Missing(RequiredVariable::CosmosDbKey) => owned(
                "COSMOS_DB_KEY environment variable not set. This is required for development.",
            ),
            ConfigError::Missing(RequiredVariable::JwtSecret) => owned(
                "JWT_SECRET environment variable not set. This is required for authentication.",
            ),
        }
    }
}

/// The throughput of the users container where none is given or what is given is no number.
pub const DEFAULT_THROUGHPUT: i32 = 400;

/// The port where none is given or what is given is no port.
pub const DEFAULT_PORT: u16 = 3000;

/// The first required variable that `environment` lacks, if any.
pub open spec fn first_missing(environment: Environment) -> Option<RequiredVariable> {
    if environment.cosmos_db_uri is None {
        Some(RequiredVariable::CosmosDbUri)
    } else if environment.cosmos_db_database is None {
        Some(RequiredVariable::CosmosDbDatabase)
    } else if environment.cosmos_db_key is None {
        Some(RequiredVariable::CosmosDbKey)
    } else if environment.jwt_secret is None {
        Some(RequiredVariable::JwtSecret)
    } else {
        None
    }
}

/// The text of `value`, or `default` where there is none.
pub open spec fn text_or(value: Option<String>, default: Seq<char>) -> Seq<char> {
    match value {
        Some(text) => text@,
        None => default,
    }
}

/// The throughput that the text `value` gives: the number it holds, or the default.
pub open spec fn throughput_of(value: Option<String>) -> i32 {
    match parsed_i32(text_or(value, "400"@)) {
        Some(number) => number,
        None => DEFAULT_THROUGHPUT,
    }
}

/// The port that the text `value` gives: the number it holds, or the default.
pub open spec fn port_of(value: Option<String>) -> u16 {
    match parsed_u16(text_or(value, "3000"@)) {
        Some(number) => number,
        None => DEFAULT_PORT,
    }
}

impl CosmosConfig {
    /// Whether no two containers are filed under the same name.
    pub open spec fn wf(&self) -> bool {
        forall|i: int, j: int|
            0 <= i < j < self.containers@.len() ==> (#[trigger] self.containers@[i]).0@ != (
            #[trigger] self.containers@[j]).0@
    }
}

/// Whether `config` is the configuration that `environment` describes.
pub open spec fn describes(environment: Environment, config: AppConfig) -> bool {
    &&& config.cosmos.wf()
    &&& config.cosmos.uri@ == text_or(environment.cosmos_db_uri, Seq::empty())
    &&& config.cosmos.database_name@ == text_or(environment.cosmos_db_database, Seq::empty())
    &&& config.cosmos.primary_key@ == text_or(environment.cosmos_db_key, Seq::empty())
    &&& config.auth.jwt_secret@ == text_or(environment.jwt_secret, Seq::empty())
    &&& config.cosmos.containers@.len() == 1
    &&& config.cosmos.containers@[0].0@ == "users"@
    &&& config.cosmos.containers@[0].1.name@ == text_or(
        environment.cosmos_users_container_name,
        "users"@,
    )
    &&& config.cosmos.containers@[0].1.partition_key@ == text_or(
        environment.cosmos_users_container_name,
        "users"@,
    )
    &&& config.cosmos.containers@[0].1.throughput == Some(
        throughput_of(environment.cosmos_users_container_throughput),
    )
    &&& config.server.host@ == text_or(environment.server_host, "0.0.0.0"@)
    &&& config.server.port == port_of(environment.server_port)
}

/// The text of `value`, or `default` where there is none.
fn or_default(value: &Option<String>, default: &str) -> (text: String)
    ensures
        text@ == text_or(*value, default@),
{
    match value {
        Some(text) => text.clone(),
        None => owned(default),
    }
}

/// Whether the environment named `environment` is production, where no `.env` file is read.
pub open spec fn is_production_spec(environment: Seq<char>) -> bool {
    lowercase(environment) == "production"@ || lowercase(environment) == "prod"@
}

/// Whether the environment named `environment` is production, where no `.env` file is read.
pub fn is_production(environment: &str) -> (production: bool)
    ensures
        production == is_production_spec(environment@),
{
    let lowered = environment.to_lowercase();
    same_text(lowered.as_str(), "production") || same_text(lowered.as_str(), "prod")
}

/// Whether a `.env` file is to be read, given the name of the environment where one is
/// set: in every environment but production.
pub fn should_load_dotenv(environment: Option<&str>) -> (load: bool)
    ensures
        load == match environment {
            Some(name) => !is_production_spec(name@),
            None => true,
        },
{
    match environment {
        Some(name) => !is_production(name),
        None => true,
    }
}

impl AppConfig {
    /// The throughput to use, given what was read from the text that holds it.
    pub fn throughput_or_default(read: Option<i32>) -> (throughput: i32)
        ensures
            throughput == match read {
                Some(number) => number,
                None => DEFAULT_THROUGHPUT,
            },
    {
        match read {
            Some(number) => number,
            None => DEFAULT_THROUGHPUT,
        }
    }

    /// The port to use, given what was read from the text that holds it.
    pub fn port_or_default(read: Option<u16>) -> (port: u16)
        ensures
            port == match read {
                Some(number) => number,
                None => DEFAULT_PORT,
            },
    {
        match read {
            Some(number) => number,
            None => DEFAULT_PORT,
        }
    }

    /// The configuration that `environment` describes, unless a required variable is not
    /// set; the first one missing is reported.
    pub fn from_env(environment: Environment) -> (result: Result<Self, ConfigError>)
        ensures
            match first_missing(environment) {
                Some(variable) => result == Err::<Self, ConfigError>(ConfigError::Missing(variable)),
                None => result matches Ok(config) && describes(environment, config),
            },
    {
        let uri = match &environment.cosmos_db_uri {
            Some(value) => value.clone(),
            None => {
                return Err(ConfigError::Missing(RequiredVariable::CosmosDbUri));
            },
        };
        let database_name = match &environment.cosmos_db_database {
            Some(value) => value.clone(),
            None => {
                return Err(ConfigError::Missing(RequiredVariable::CosmosDbDatabase));
            },
        };
        let primary_key = match &environment.cosmos_db_key {
            Some(value) => value.clone(),
            None => {
                return Err(ConfigError::Missing(RequiredVariable::CosmosDbKey));
            },
        };
        let jwt_secret = match &environment.jwt_secret {
            Some(value) => value.clone(),
            None => {
                return Err(ConfigError::Missing(RequiredVariable::JwtSecret));
            },
        };
        let throughput_text = or_default(&environment.cosmos_users_container_throughput, "400");
        let users = ContainerConfig {
            name: or_default(&environment.cosmos_users_container_name, "users"),
            partition_key: or_default(&environment.cosmos_users_container_name, "users"),
            throughput: Some(Self::throughput_or_default(parse_i32(throughput_text.as_str()))),
        };
        let mut containers: Vec<(String, ContainerConfig)> = Vec::new();
        containers.push((owned("users"), users));
        let port_text = or_default(&environment.server_port, "3000");
        let server = ServerConfig {
            host: or_default(&environment.server_host, "0.0.0.0"),
            port: Self::port_or_default(parse_u16(port_text.as_str())),
        };
        Ok(
            AppConfig {
                cosmos: CosmosConfig { uri, database_name, containers, primary_key },
                server,
                auth: AuthConfig { jwt_secret },
            },
        )
    }

    /// The container filed under `container_type`, if there is one; the first, should
    /// there be several.
    pub fn get_container_config(&self, container_type: &str) -> (found: Option<&ContainerConfig>)
        ensures
            match found {
                Some(container) => exists|i: int|
                    0 <= i < self.cosmos.containers@.len() && #[trigger] self.cosmos.containers@[i].0@
                        == container_type@ && self.cosmos.containers@[i].1 == *container
                        && forall|j: int|
                        0 <= j < i ==> (#[trigger] self.cosmos.containers@[j]).0@
                            != container_type@,
                None => forall|i: int|
                    0 <= i < self.cosmos.containers@.len() ==> (
                    #[trigger] self.cosmos.containers@[i]).0@ != container_type@,
            },
    {
        let mut i: usize = 0;
        while i < self.cosmos.containers.len()
            invariant
                i <= self.cosmos.containers@.len(),
                forall|j: int|
                    0 <= j < i ==> (#[trigger] self.cosmos.containers@[j]).0@ != container_type@,
            decreases self.cosmos.containers@.len() - i,
        {
            if same_text(self.cosmos.containers[i].0.as_str(), container_type) {
                return Some(&self.cosmos.containers[i].1);
            }
            i = i + 1;
        }
        None
    }
}

/// The configuration that was loaded. It must have been loaded: a caller that cannot do
/// without one has nothing to go on otherwise.
pub fn get_config(loaded: &Result<AppConfig, ConfigError>) -> (config: &AppConfig)
    requires
        loaded is Ok,
    ensures
        *loaded == Ok::<AppConfig, ConfigError>(*config),
{
    match loaded {
        Ok(config) => config,
        Err(_) => {
            proof {
                assert(false);
            }
            unreached()
        },
    }
}

/// What to say where no configuration could be loaded.
pub fn config_failure_message(error: ConfigError) -> (text: String)
    ensures
        text@
            == "Failed to load application configuration. Please ensure all required environment variables are set. Error:\n"@
            + error.message_spec(),
{
    let mut text = owned(
        "Failed to load application configuration. Please ensure all required environment variables are set. Error:\n",
    );
    text.append(error.message().as_str());
    text
}

} // verus!
