use finance_tracker::infrastructure::config::app_config::{
    config_failure_message, get_config, is_production, should_load_dotenv, AppConfig,
    ConfigError, ContainerConfig, Environment, RequiredVariable, DEFAULT_PORT,
    DEFAULT_THROUGHPUT,
};

fn text(value: &str) -> Option<String> {
    Some(value.to_string())
}

fn minimal() -> Environment {
    Environment {
        cosmos_db_uri: text("https://db.example"),
        cosmos_db_database: text("finance"),
        cosmos_db_key: text("SECRET-REDACTED"),
        jwt_secret: text("signing-key"),
        cosmos_users_container_name: None,
        cosmos_users_container_throughput: None,
        server_host: None,
        server_port: None,
    }
}

#[test]
fn defaults_fill_what_is_not_set() {
    let config = AppConfig::from_env(minimal()).unwrap();
    assert_eq!(config.cosmos.uri, "https://db.example");
    assert_eq!(config.cosmos.database_name, "finance");
    assert_eq!(config.cosmos.primary_key, "SECRET-REDACTED");
    assert_eq!(config.auth.jwt_secret, "signing-key");
    assert_eq!(config.cosmos.containers.len(), 1);
    assert_eq!(config.cosmos.containers[0].0, "users");
    assert_eq!(config.cosmos.containers[0].1.name, "users");
    assert_eq!(config.cosmos.containers[0].1.partition_key, "users");
    assert_eq!(config.cosmos.containers[0].1.throughput, Some(400));
    assert_eq!(config.server.host, "0.0.0.0");
    assert_eq!(config.server.port, 3000);
    assert_eq!(DEFAULT_THROUGHPUT, 400);
    assert_eq!(DEFAULT_PORT, 3000);
}

#[test]
fn what_is_set_is_used() {
    let mut environment = minimal();
    environment.cosmos_users_container_name = text("people");
    environment.cosmos_users_container_throughput = text("800");
    environment.server_host = text("127.0.0.1");
    environment.server_port = text("8080");
    let config = AppConfig::from_env(environment).unwrap();
    assert_eq!(config.cosmos.containers[0].0, "users");
    assert_eq!(config.cosmos.containers[0].1.name, "people");
    assert_eq!(config.cosmos.containers[0].1.partition_key, "people");
    assert_eq!(config.cosmos.containers[0].1.throughput, Some(800));
    assert_eq!(config.server.host, "127.0.0.1");
    assert_eq!(config.server.port, 8080);
}

#[test]
fn numbers_that_cannot_be_read_fall_back_to_the_defaults() {
    for (throughput, port) in [("lots", "http"), ("", ""), ("4e2", "65536"), ("99999999999", "-1"), (" 800", "80 ")] {
        let mut environment = minimal();
        environment.cosmos_users_container_throughput = text(throughput);
        environment.server_port = text(port);
        let config = AppConfig::from_env(environment).unwrap();
        assert_eq!(config.cosmos.containers[0].1.throughput, Some(400), "for {:?}", throughput);
        assert_eq!(config.server.port, 3000, "for {:?}", port);
    }
    let mut environment = minimal();
    environment.cosmos_users_container_throughput = text("-5");
    environment.server_port = text("+65535");
    let config = AppConfig::from_env(environment).unwrap();
    assert_eq!(config.cosmos.containers[0].1.throughput, Some(-5));
    assert_eq!(config.server.port, 65535);
}

#[test]
fn the_first_missing_variable_is_reported() {
    let mut environment = minimal();
    environment.jwt_secret = None;
    assert_eq!(
        AppConfig::from_env(environment.clone()).map(|_| ()),
        Err(ConfigError::Missing(RequiredVariable::JwtSecret))
    );
    environment.cosmos_db_key = None;
    assert_eq!(
        AppConfig::from_env(environment.clone()).map(|_| ()),
        Err(ConfigError::Missing(RequiredVariable::CosmosDbKey))
    );
    environment.cosmos_db_database = None;
    assert_eq!(
        AppConfig::from_env(environment.clone()).map(|_| ()),
        Err(ConfigError::Missing(RequiredVariable::CosmosDbDatabase))
    );
    environment.cosmos_db_uri = None;
    assert_eq!(
        AppConfig::from_env(environment).map(|_| ()),
        Err(ConfigError::Missing(RequiredVariable::CosmosDbUri))
    );
}

#[test]
fn config_error_messages() {
    assert_eq!(
        ConfigError::Missing(RequiredVariable::CosmosDbUri).message(),
        "COSMOS_DB_URI environment variable not set"
    );
    assert_eq!(
        ConfigError::Missing(RequiredVariable::CosmosDbDatabase).message(),
        "COSMOS_DB_DATABASE environment variable not set"
    );
    assert_eq!(
        ConfigError::Missing(RequiredVariable::CosmosDbKey).message(),
        "COSMOS_DB_KEY environment variable not set. This is required for development."
    );
    assert_eq!(
        ConfigError::Missing(RequiredVariable::JwtSecret).message(),
        "JWT_SECRET environment variable not set. This is required for authentication."
    );
    assert_eq!(
        config_failure_message(ConfigError::Missing(RequiredVariable::JwtSecret)),
        "Failed to load application configuration. Please ensure all required environment variables are set. Error:\nJWT_SECRET environment variable not set. This is required for authentication."
    );
}

#[test]
fn container_is_found_by_what_it_holds() {
    let mut config = AppConfig::from_env(minimal()).unwrap();
    assert_eq!(config.get_container_config("users").unwrap().name, "users");
    assert!(config.get_container_config("Users").is_none());
    assert!(config.get_container_config("user").is_none());
    assert!(config.get_container_config("").is_none());
    let container = |name: &str| ContainerConfig {
        name: name.to_string(),
        partition_key: "/id".to_string(),
        throughput: None,
    };
    config.cosmos.containers.push(("posts".to_string(), container("posts-a")));
    config.cosmos.containers.push(("posts".to_string(), container("posts-b")));
    assert_eq!(config.get_container_config("posts").unwrap().name, "posts-a");
    assert_eq!(config.get_container_config("users").unwrap().name, "users");
    config.cosmos.containers.clear();
    assert!(config.get_container_config("users").is_none());
}

#[test]
fn get_config_hands_out_what_was_loaded() {
    let loaded = AppConfig::from_env(minimal());
    let config = get_config(&loaded);
    assert_eq!(config.server.port, 3000);
    assert_eq!(config.cosmos.database_name, "finance");
}

#[test]
fn dotenv_is_read_everywhere_but_in_production() {
    assert!(should_load_dotenv(None));
    assert!(should_load_dotenv(Some("development")));
    assert!(should_load_dotenv(Some("")));
    assert!(should_load_dotenv(Some("staging")));
    assert!(should_load_dotenv(Some("production ")));
    assert!(!should_load_dotenv(Some("production")));
    assert!(!should_load_dotenv(Some("prod")));
    assert!(!should_load_dotenv(Some("PRODUCTION")));
    assert!(!should_load_dotenv(Some("Prod")));
    assert!(is_production("pROd"));
    assert!(!is_production("producti"));
}
