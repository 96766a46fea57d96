use botchling::config::config::Config as AppNameConfig;
use botchling::error::{EnvVar, Error};
use botchling::infrastructure::config::{Config, EnvValues};
use botchling::infrastructure::mongo::{connection_uri, ttl_seconds};

fn s(v: &str) -> Option<String> {
    Some(v.to_string())
}

fn minimal() -> EnvValues {
    EnvValues {
        app_name: None,
        mongo_url_prefix: None,
        mongo_user: s("user"),
        mongo_password: s("secret"),
        mongo_host: s("db.local"),
        mongo_port: None,
        mongo_db: s("botchling"),
        mongo_ttl_days: None,
        socket_path: None,
        log_level: None,
        discord_webhook_url: None,
    }
}

#[test]
fn defaults_fill_unset_variables() {
    let c = Config::load_from_env(minimal()).unwrap();
    assert_eq!(c.app_name, "RustApp");
    assert_eq!(c.mongo_url_prefix, "mongodb");
    assert_eq!(c.mongo_user, "user");
    assert_eq!(c.mongo_password, "secret");
    assert_eq!(c.mongo_host, "db.local");
    assert_eq!(c.mongo_port, 27017);
    assert_eq!(c.mongo_db, "botchling");
    assert_eq!(c.mongo_ttl_days, 15);
    assert_eq!(c.socket_path, "/var/run/botchling/botchling.sock");
    assert_eq!(c.logger_level, "info");
    assert_eq!(c.discord_webhook_url, "");
}

#[test]
fn set_variables_are_used() {
    let mut env = minimal();
    env.app_name = s("Bot");
    env.mongo_url_prefix = s("mongodb+srv");
    env.mongo_port = s("+2717");
    env.mongo_ttl_days = s("30");
    env.socket_path = s("/tmp/s.sock");
    env.log_level = s("debug");
    env.discord_webhook_url = s("https://hook");
    let c = Config::load_from_env(env).unwrap();
    assert_eq!(c.app_name, "Bot");
    assert_eq!(c.mongo_url_prefix, "mongodb+srv");
    assert_eq!(c.mongo_port, 2717);
    assert_eq!(c.mongo_ttl_days, 30);
    assert_eq!(c.socket_path, "/tmp/s.sock");
    assert_eq!(c.logger_level, "debug");
    assert_eq!(c.discord_webhook_url, "https://hook");
}

#[test]
fn missing_required_variables_in_order() {
    let mut env = minimal();
    env.mongo_user = None;
    env.mongo_db = None;
    let e = Config::load_from_env(env).unwrap_err();
    assert_eq!(e, Error::MissingVariable(EnvVar::MongoUser));
    assert_eq!(e.message(), "MONGO_USER environment variable is missing");

    let mut env = minimal();
    env.mongo_password = None;
    assert_eq!(
        Config::load_from_env(env).unwrap_err(),
        Error::MissingVariable(EnvVar::MongoPassword)
    );

    let mut env = minimal();
    env.mongo_host = None;
    assert_eq!(Config::load_from_env(env).unwrap_err(), Error::MissingVariable(EnvVar::MongoHost));

    let mut env = minimal();
    env.mongo_db = None;
    env.mongo_ttl_days = s("x");
    assert_eq!(Config::load_from_env(env).unwrap_err(), Error::MissingVariable(EnvVar::MongoDb));
}

#[test]
fn invalid_numbers_are_rejected() {
    for bad in ["70000", "", "-1", "12a", "+", " 80", "65536"] {
        let mut env = minimal();
        env.mongo_port = s(bad);
        let e = Config::load_from_env(env).unwrap_err();
        assert_eq!(e, Error::InvalidNumber(EnvVar::MongoPort), "{bad}");
    }
    let mut env = minimal();
    env.mongo_port = s("x");
    env.mongo_db = None;
    assert_eq!(Config::load_from_env(env).unwrap_err(), Error::InvalidNumber(EnvVar::MongoPort));

    let mut env = minimal();
    env.mongo_ttl_days = s("18446744073709551616");
    let e = Config::load_from_env(env).unwrap_err();
    assert_eq!(e, Error::InvalidNumber(EnvVar::MongoTtlDays));
    assert_eq!(e.message(), "MONGO_TTL_DAYS environment variable must be a valid number");
}

#[test]
fn number_edges_match_std_parse() {
    for text in ["0", "007", "65535", "+0", "1"] {
        let mut env = minimal();
        env.mongo_port = s(text);
        assert_eq!(Config::load_from_env(env).unwrap().mongo_port, text.parse::<u16>().unwrap());
    }
    let mut env = minimal();
    env.mongo_ttl_days = s("18446744073709551615");
    assert_eq!(Config::load_from_env(env).unwrap().mongo_ttl_days, u64::MAX);
}

#[test]
fn app_name_config() {
    assert_eq!(AppNameConfig::load_from_env(None).app_name, "MyApp");
    assert_eq!(AppNameConfig::load_from_env(s("Other")).app_name, "Other");
}

#[test]
fn connection_uri_text() {
    let c = Config::load_from_env(minimal()).unwrap();
    assert_eq!(connection_uri(&c), "mongodb://db.local:27017/botchling");
}

#[test]
fn ttl_in_seconds() {
    assert_eq!(ttl_seconds(15), 1_296_000);
    assert_eq!(ttl_seconds(0), 0);
}
