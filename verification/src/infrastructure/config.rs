use vstd::prelude::*;
use vstd::utf8::encode_utf8;

use crate::error::{EnvVar, Error};
use crate::text::{parse_unsigned, unsigned_value};

verus! {

/// The environment variables the configuration reads, each as found
/// (`None` when unset or not valid Unicode).
#[derive(Debug)]
pub struct EnvValues {
    pub app_name: Option<String>,
    pub mongo_url_prefix: Option<String>,
    pub mongo_user: Option<String>,
    pub mongo_password: Option<String>,
    pub mongo_host: Option<String>,
    pub mongo_port: Option<String>,
    pub mongo_db: Option<String>,
    pub mongo_ttl_days: Option<String>,
    pub socket_path: Option<String>,
    pub log_level: Option<String>,
    pub discord_webhook_url: Option<String>,
}

/// The settings of the service.
#[derive(Debug)]
pub struct Config {
    pub app_name: String,
    pub mongo_url_prefix: String,
    pub mongo_user: String,
    pub mongo_password: String,
    pub mongo_host: String,
    pub mongo_port: u16,
    pub mongo_db: String,
    pub mongo_ttl_days: u64,
    pub socket_path: String,
    pub logger_level: String,
    pub discord_webhook_url: String,
}

/// The text of a variable, or `default` when it is unset.
pub open spec fn text_or(v: Option<String>, default: Seq<char>) -> Seq<char> {
    match v {
        Some(s) => s@,
        None => default,
    }
}

/// The port that `MONGO_PORT` gives (27017 when unset), if it is a u16.
pub open spec fn port_value(v: Option<String>) -> Option<u64> {
    unsigned_value(encode_utf8(text_or(v, "27017"@)), u16::MAX as int)
}

/// The retention that `MONGO_TTL_DAYS` gives (15 when unset), if it is a u64.
pub open spec fn ttl_value(v: Option<String>) -> Option<u64> {
    unsigned_value(encode_utf8(text_or(v, "15"@)), u64::MAX as int)
}

/// The first problem with `env`, checked in this order: user, password and
/// host must be set, the port must be a u16, the database must be set, the
/// retention must be a u64.
pub open spec fn config_error(env: EnvValues) -> Option<Error> {
    if env.mongo_user is None {
        Some(Error::MissingVariable(EnvVar::MongoUser))
    } else if env.mongo_password is None {
        Some(Error::MissingVariable(EnvVar::MongoPassword))
    } else if env.mongo_host is None {
        Some(Error::MissingVariable(EnvVar::MongoHost))
    } else if port_value(env.mongo_port) is None {
        Some(Error::InvalidNumber(EnvVar::MongoPort))
    } else if env.mongo_db is None {
        Some(Error::MissingVariable(EnvVar::MongoDb))
    } else if ttl_value(env.mongo_ttl_days) is None {
        Some(Error::InvalidNumber(EnvVar::MongoTtlDays))
    } else {
        None
    }
}

/// `c` is the configuration that `env` describes: each setting is its
/// variable's text, or its default when unset.
pub open spec fn describes(c: Config, env: EnvValues) -> bool {
    &&& c.app_name@ == text_or(env.app_name, "RustApp"@)
    &&& c.mongo_url_prefix@ == text_or(env.mongo_url_prefix, "mongodb"@)
    &&& Some(c.mongo_user) == env.mongo_user
    &&& Some(c.mongo_password) == env.mongo_password
    &&& Some(c.mongo_host) == env.mongo_host
    &&& port_value(env.mongo_port) == Some(c.mongo_port as u64)
    &&& Some(c.mongo_db) == env.mongo_db
    &&& ttl_value(env.mongo_ttl_days) == Some(c.mongo_ttl_days)
    &&& c.socket_path@ == text_or(env.socket_path, "/var/run/botchling/botchling.sock"@)
    &&& c.logger_level@ == text_or(env.log_level, "info"@)
    &&& c.discord_webhook_url@ == text_or(env.discord_webhook_url, Seq::<char>::empty())
}

fn text_or_default(v: Option<String>, default: &str) -> (s: String)
    ensures
        s@ == text_or(v, default@),
{
    match v {
        Some(s) => s,
        None => default.to_owned(),
    }
}

impl Config {
    /// Builds the configuration from the environment's variables.
    pub fn load_from_env(env: EnvValues) -> (res: Result<Config, Error>)
        ensures
            match res {
                Ok(c) => config_error(env) is None && describes(c, env),
                Err(e) => config_error(env) == Some(e),
            },
    {
        let EnvValues {
            app_name,
            mongo_url_prefix,
            mongo_user,
            mongo_password,
            mongo_host,
            mongo_port,
            mongo_db,
            mongo_ttl_days,
            socket_path,
            log_level,
            discord_webhook_url,
        } = env;
        let app_name = text_or_default(app_name, "RustApp");
        let mongo_url_prefix = text_or_default(mongo_url_prefix, "mongodb");
        let mongo_user = match mongo_user {
            Some(v) => v,
            None => return Err(Error::MissingVariable(EnvVar::MongoUser)),
        };
        let mongo_password = match mongo_password {
            Some(v) => v,
            None => return Err(Error::MissingVariable(EnvVar::MongoPassword)),
        };
        let mongo_host = match mongo_host {
            Some(v) => v,
            None => return Err(Error::MissingVariable(EnvVar::MongoHost)),
        };
        let port_text = text_or_default(mongo_port, "27017");
        let mongo_port: u16 = match parse_unsigned(port_text.as_str(), 0xffff) {
            Some(p) => p as u16,
            None => return Err(Error::InvalidNumber(EnvVar::MongoPort)),
        };
        let mongo_db = match mongo_db {
            Some(v) => v,
            None => return Err(Error::MissingVariable(EnvVar::MongoDb)),
        };
        let ttl_text = text_or_default(mongo_ttl_days, "15");
        let mongo_ttl_days: u64 = match parse_unsigned(ttl_text.as_str(), u64::MAX) {
            Some(d) => d,
            None => return Err(Error::InvalidNumber(EnvVar::MongoTtlDays)),
        };
        let socket_path = text_or_default(socket_path, "/var/run/botchling/botchling.sock");
        let logger_level = text_or_default(log_level, "info");
        let discord_webhook_url = match discord_webhook_url {
            Some(v) => v,
            None => String::new(),
        };
        let c = Config {
                app_name,
                mongo_url_prefix,
                mongo_user,
                mongo_password,
                mongo_host,
                mongo_port,
                mongo_db,
                mongo_ttl_days,
                socket_path,
                logger_level,
                discord_webhook_url,
            };
        Ok(c)
    }
}

} // verus!
