//! Connection settings of the tool at the workspace root, read from the
//! `SUPABASE_DB*` variables alone.

use vstd::prelude::*;
use vstd::utf8::encode_utf8;
use crate::port::{parse_u16, parse_u16_spec, ParseIntErrorKind};

verus! {

pub const SUPABASE_DB: &'static str = "SUPABASE_DB";
pub const SUPABASE_DB_USER: &'static str = "SUPABASE_DB_USER";
pub const SUPABASE_DB_PASSWORD: &'static str = "SUPABASE_DB_PASSWORD";
pub const SUPABASE_DB_PORT: &'static str = "SUPABASE_DB_PORT";

/// Where and as whom to connect to the database.
#[derive(Debug, Clone)]
pub struct PostgresConfiguration {
    pub url: String,
    pub user_name: String,
    pub password: String,
    pub port: u16,
}

/// The four settings of a `PostgresConfiguration` as mathematical values.
pub struct ConfigurationView {
    pub url: Seq<char>,
    pub user_name: Seq<char>,
    pub password: Seq<char>,
    pub port: u16,
}

impl View for PostgresConfiguration {
    type V = ConfigurationView;

    open spec fn view(&self) -> ConfigurationView {
        ConfigurationView {
            url: self.url@,
            user_name: self.user_name@,
            password: self.password@,
            port: self.port,
        }
    }
}

impl Default for PostgresConfiguration {
    fn default() -> (r: Self)
        ensures
            r.url@ == Seq::<char>::empty(),
            r.user_name@ == Seq::<char>::empty(),
            r.password@ == Seq::<char>::empty(),
            r.port == 0,
    {
        PostgresConfiguration {
            url: String::new(),
            user_name: String::new(),
            password: String::new(),
            port: 0,
        }
    }
}

/// The values of the environment variables that the settings come from;
/// `None` where a variable is unset or its value is not Unicode.
pub struct EnvValues {
    pub supabase_db: Option<String>,
    pub supabase_db_user: Option<String>,
    pub supabase_db_password: Option<String>,
    pub supabase_db_port: Option<String>,
}

/// Why the settings could not be read from the environment.
#[derive(Clone, Copy, Debug, PartialEq, Eq, Structural)]
pub enum ConfigError {
    MissingUrl,
    MissingUserName,
    MissingPassword,
    MissingPort,
    /// `SUPABASE_DB_PORT` is set but is no decimal `u16`.
    InvalidPort(ParseIntErrorKind),
}

/// The settings that `env` yields, or the first setting, in the order url,
/// user name, password, port, that it lacks.
pub open spec fn configuration_from(env: EnvValues) -> Result<ConfigurationView, ConfigError> {
    match (env.supabase_db, env.supabase_db_user, env.supabase_db_password, env.supabase_db_port) {
        (None, _, _, _) => Err(ConfigError::MissingUrl),
        (Some(_), None, _, _) => Err(ConfigError::MissingUserName),
        (Some(_), Some(_), None, _) => Err(ConfigError::MissingPassword),
        (Some(_), Some(_), Some(_), None) => Err(ConfigError::MissingPort),
        (Some(url), Some(user), Some(password), Some(port)) => match parse_u16_spec(
            encode_utf8(port@),
        ) {
            Err(kind) => Err(ConfigError::InvalidPort(kind)),
            Ok(p) => Ok(
                ConfigurationView { url: url@, user_name: user@, password: password@, port: p },
            ),
        },
    }
}

/// How the settings follow from the four variables: on success each setting
/// is exactly its variable's value, and the port what its text reads as; a
/// variable that is unset is the error, the first one in the order url,
/// user name, password, port, whatever the later ones hold; a port text
/// that is no `u16` is the error `InvalidPort`; otherwise the settings are
/// read.
pub open spec fn settings_rule(env: EnvValues, r: Result<ConfigurationView, ConfigError>) -> bool {
    &&& r matches Ok(c) ==> {
        &&& env.supabase_db matches Some(v) && c.url == v@
        &&& env.supabase_db_user matches Some(v) && c.user_name == v@
        &&& env.supabase_db_password matches Some(v) && c.password == v@
        &&& env.supabase_db_port matches Some(t) && parse_u16_spec(encode_utf8(t@)) == Ok::<
            u16,
            ParseIntErrorKind,
        >(c.port)
    }
    &&& env.supabase_db is None ==> r == Err::<ConfigurationView, ConfigError>(
        ConfigError::MissingUrl,
    )
    &&& env.supabase_db is Some && env.supabase_db_user is None ==> r == Err::<
        ConfigurationView,
        ConfigError,
    >(ConfigError::MissingUserName)
    &&& env.supabase_db is Some && env.supabase_db_user is Some && env.supabase_db_password is None
        ==> r == Err::<ConfigurationView, ConfigError>(ConfigError::MissingPassword)
    &&& env.supabase_db is Some && env.supabase_db_user is Some && env.supabase_db_password is Some
        && env.supabase_db_port is None ==> r == Err::<ConfigurationView, ConfigError>(
        ConfigError::MissingPort,
    )
    &&& env.supabase_db is Some && env.supabase_db_user is Some && env.supabase_db_password is Some
        ==> (env.supabase_db_port matches Some(t) ==> (parse_u16_spec(encode_utf8(t@)) matches Err(
        k,
    ) ==> r == Err::<ConfigurationView, ConfigError>(ConfigError::InvalidPort(k))))
    &&& env.supabase_db is Some && env.supabase_db_user is Some && env.supabase_db_password is Some
        ==> (env.supabase_db_port matches Some(t) ==> (parse_u16_spec(encode_utf8(t@)) is Ok ==> r is Ok))
}

/// The settings read from the environment obey `settings_rule`: success
/// exactly when all four variables are set and the port reads as a `u16`,
/// with each setting taken from its own variable, and otherwise the error of
/// the first unset variable or of the unreadable port.
pub proof fn law_settings_follow_variables(env: EnvValues)
    ensures
        settings_rule(env, configuration_from(env)),
{
}

/// The text of the error for `e`.
pub open spec fn config_error_message(e: ConfigError) -> Seq<char> {
    match e {
        ConfigError::MissingUrl => "Missing SUPABASE_DB"@,
        ConfigError::MissingUserName => "Missing SUPABASE_DB_USER"@,
        ConfigError::MissingPassword => "Missing SUPABASE_DB_PASSWORD"@,
        ConfigError::MissingPort => "Missing SUPABASE_DB_PORT"@,
        ConfigError::InvalidPort(_) => "Missing SUPABASE_DB_PORT"@,
    }
}

impl ConfigError {
    /// The text that the error is reported with; an unreadable port is
    /// reported as a missing one.
    pub fn message(&self) -> (r: String)
        ensures
            r@ == config_error_message(*self),
    {
        match self {
            ConfigError::MissingUrl => String::from_str("Missing SUPABASE_DB"),
            ConfigError::MissingUserName => String::from_str("Missing SUPABASE_DB_USER"),
            ConfigError::MissingPassword => String::from_str("Missing SUPABASE_DB_PASSWORD"),
            ConfigError::MissingPort => String::from_str("Missing SUPABASE_DB_PORT"),
            ConfigError::InvalidPort(_) => String::from_str("Missing SUPABASE_DB_PORT"),
        }
    }
}

impl PostgresConfiguration {
    /// Builds the settings from the values of `SUPABASE_DB`,
    /// `SUPABASE_DB_USER`, `SUPABASE_DB_PASSWORD` and `SUPABASE_DB_PORT`.
    pub fn from_env(env: EnvValues) -> (r: Result<Self, ConfigError>)
        ensures
            match r {
                Ok(c) => configuration_from(env) == Ok::<ConfigurationView, ConfigError>(c@),
                Err(e) => configuration_from(env) == Err::<ConfigurationView, ConfigError>(e),
            },
            settings_rule(
                env,
                match r {
                    Ok(c) => Ok::<ConfigurationView, ConfigError>(c@),
                    Err(e) => Err::<ConfigurationView, ConfigError>(e),
                },
            ),
    {
        proof {
            law_settings_follow_variables(env);
        }
        let EnvValues { supabase_db, supabase_db_user, supabase_db_password, supabase_db_port } =
            env;
        let url = match supabase_db {
            Some(v) => v,
            None => return Err(ConfigError::MissingUrl),
        };
        let user_name = match supabase_db_user {
            Some(v) => v,
            None => return Err(ConfigError::MissingUserName),
        };
        let password = match supabase_db_password {
            Some(v) => v,
            None => return Err(ConfigError::MissingPassword),
        };
        let port_text = match supabase_db_port {
            Some(v) => v,
            None => return Err(ConfigError::MissingPort),
        };
        let port = match parse_u16(port_text.as_str()) {
            Ok(p) => p,
            Err(kind) => return Err(ConfigError::InvalidPort(kind)),
        };
        Ok(PostgresConfiguration { url, user_name, password, port })
    }
}

} // verus!
