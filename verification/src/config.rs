//! The settings that the service cannot start without.

use vstd::prelude::*;

verus! {

/// A setting read from the environment of the process.
#[derive(Debug, Clone, Copy, PartialEq, Eq, Structural)]
pub enum EnvVar {
    DatabaseUrl,
    JwtSecret,
}

impl EnvVar {
    /// The name under which the setting is looked up.
    pub open spec fn spec_name(self) -> &'static str {
        match self {
            EnvVar::DatabaseUrl => "POSTGRES_DATABASE_URL",
            EnvVar::JwtSecret => "JWT_SECRET",
        }
    }

    #[verifier::when_used_as_spec(spec_name)]
    pub fn name(self) -> (text: &'static str)
        ensures
            text == self.spec_name(),
    {
        match self {
            EnvVar::DatabaseUrl => "POSTGRES_DATABASE_URL",
            EnvVar::JwtSecret => "JWT_SECRET",
        }
    }
}

/// The settings of the process, built once at startup and never changed.
#[derive(Debug)]
pub struct Config {
    pub database_url: String,
    pub jwt_secret: String,
}

/// What is owed for the values found in the environment: the settings when
/// all are there, else the first that is missing, the database address
/// before the secret.
pub open spec fn checked(database_url: Option<String>, jwt_secret: Option<String>) -> Result<
    Config,
    EnvVar,
> {
    match (database_url, jwt_secret) {
        (None, _) => Err(EnvVar::DatabaseUrl),
        (Some(_), None) => Err(EnvVar::JwtSecret),
        (Some(database_url), Some(jwt_secret)) => Ok(Config { database_url, jwt_secret }),
    }
}

/// Checks that every setting was found in the environment. The caller looks
/// the values up, each under its [`EnvVar::name`], and hands in what it
/// found.
pub fn check_env_vars(database_url: Option<String>, jwt_secret: Option<String>) -> (settings:
    Result<Config, EnvVar>)
    ensures
        settings == checked(database_url, jwt_secret),
{
    match (database_url, jwt_secret) {
        (None, _) => Err(EnvVar::DatabaseUrl),
        (Some(_), None) => Err(EnvVar::JwtSecret),
        (Some(database_url), Some(jwt_secret)) => Ok(Config { database_url, jwt_secret }),
    }
}

} // verus!
