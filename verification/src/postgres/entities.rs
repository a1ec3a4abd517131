//! Connection settings of the database tool, read from the `SUPABASE_DB*`
//! variables or, where one is unset, from the matching `PG*` variable.

use vstd::prelude::*;
use vstd::utf8::encode_utf8;
use crate::port::{parse_error_message, parse_u16, parse_u16_spec, ParseIntErrorKind};

verus! {

pub const SUPABASE_DB: &'static str = "SUPABASE_DB";
pub const SUPABASE_DB_USER: &'static str = "SUPABASE_DB_USER";
pub const SUPABASE_DB_PASSWORD: &'static str = "SUPABASE_DB_PASSWORD";
pub const SUPABASE_DB_PORT: &'static str = "SUPABASE_DB_PORT";

pub const PGHOST: &'static str = "PGHOST";
pub const PGPORT: &'static str = "PGPORT";
pub const PGUSER: &'static str = "PGUSER";
pub const PGPASSWORD: &'static str = "PGPASSWORD";

/// Where and as whom to connect to the database.
#[derive(Debug, Clone)]
pub struct PostgresConfiguration {
    pub url: String,
    pub user_name: String,
    pub password: String,
    pub port: u16,
}

/// The four settings of a `PostgresConfiguration` as mathematical values.
pub struct ConfigurationView {
    pub url: Seq<char>,
    pub user_name: Seq<char>,
    pub password: Seq<char>,
    pub port: u16,
}

impl View for PostgresConfiguration {
    type V = ConfigurationView;

    open spec fn view(&self) -> ConfigurationView {
        ConfigurationView {
            url: self.url@,
            user_name: self.user_name@,
            password: self.password@,
            port: self.port,
        }
    }
}

impl Default for PostgresConfiguration {
    fn default() -> (r: Self)
        ensures
            r.url@ == Seq::<char>::empty(),
            r.user_name@ == Seq::<char>::empty(),
            r.password@ == Seq::<char>::empty(),
            r.port == 0,
    {
        PostgresConfiguration {
            url: String::new(),
            user_name: String::new(),
            password: String::new(),
            port: 0,
        }
    }
}

/// The values of the environment variables that the settings come from;
/// `None` where a variable is unset or its value is not Unicode.
pub struct EnvValues {
    pub supabase_db: Option<String>,
    pub supabase_db_user: Option<String>,
    pub supabase_db_password: Option<String>,
    pub supabase_db_port: Option<String>,
    pub pghost: Option<String>,
    pub pguser: Option<String>,
    pub pgpassword: Option<String>,
    pub pgport: Option<String>,
}

/// Why the settings could not be read from the environment.
#[derive(Clone, Copy, Debug, PartialEq, Eq, Structural)]
pub enum ConfigError {
    MissingUrl,
    MissingUserName,
    MissingPassword,
    MissingPort,
    /// The chosen port variable is set but is no decimal `u16`.
    InvalidPort(ParseIntErrorKind),
}

/// The value of `preferred` where it is set, else that of `fallback`.
pub open spec fn either(preferred: Option<String>, fallback: Option<String>) -> Option<Seq<char>> {
    match preferred {
        Some(v) => Some(v@),
        None => match fallback {
            Some(v) => Some(v@),
            None => None,
        },
    }
}

/// The settings that `env` yields, each `SUPABASE_DB*` variable before its
/// `PG*` counterpart, or the first setting, in the order url, user name,
/// password, port, that neither variable gives.
pub open spec fn configuration_from(env: EnvValues) -> Result<ConfigurationView, ConfigError> {
    let url = either(env.supabase_db, env.pghost);
    let user = either(env.supabase_db_user, env.pguser);
    let password = either(env.supabase_db_password, env.pgpassword);
    let port = either(env.supabase_db_port, env.pgport);
    if url is None {
        Err(ConfigError::MissingUrl)
    } else if user is None {
        Err(ConfigError::MissingUserName)
    } else if password is None {
        Err(ConfigError::MissingPassword)
    } else if port is None {
        Err(ConfigError::MissingPort)
    } else {
        match parse_u16_spec(encode_utf8(port->0)) {
            Err(kind) => Err(ConfigError::InvalidPort(kind)),
            Ok(p) => Ok(
                ConfigurationView {
                    url: url->0,
                    user_name: user->0,
                    password: password->0,
                    port: p,
                },
            ),
        }
    }
}

/// The text of the error for `e`.
pub open spec fn config_error_message(e: ConfigError) -> Seq<char> {
    match e {
        ConfigError::MissingUrl => "Missing SUPABASE_DB or PGDB"@,
        ConfigError::MissingUserName => "Missing SUPABASE_DB_USER or PGUSER"@,
        ConfigError::MissingPassword => "Missing SUPABASE_DB_PASSWORD or PGPASSWORD"@,
        ConfigError::MissingPort => "Missing SUPABASE_DB_PORT or PGPORT"@,
        ConfigError::InvalidPort(k) => "Invalid SUPABASE_DB_PORT or PGPORT: "@ + parse_error_message(
            k,
        ),
    }
}

impl ConfigError {
    /// The text that the error is reported with.
    pub fn message(&self) -> (r: String)
        ensures
            r@ == config_error_message(*self),
    {
        match self {
            ConfigError::MissingUrl => String::from_str("Missing SUPABASE_DB or PGDB"),
            ConfigError::MissingUserName => String::from_str("Missing SUPABASE_DB_USER or PGUSER"),
            ConfigError::MissingPassword => String::from_str(
                "Missing SUPABASE_DB_PASSWORD or PGPASSWORD",
            ),
            ConfigError::MissingPort => String::from_str("Missing SUPABASE_DB_PORT or PGPORT"),
            ConfigError::InvalidPort(k) => {
                let detail = k.message();
                String::from_str("Invalid SUPABASE_DB_PORT or PGPORT: ").concat(detail.as_str())
            },
        }
    }
}

fn either_exec(preferred: Option<String>, fallback: Option<String>) -> (r: Option<String>)
    ensures
        match r {
            Some(v) => either(preferred, fallback) == Some(v@),
            None => either(preferred, fallback) is None,
        },
{
    match preferred {
        Some(v) => Some(v),
        None => fallback,
    }
}

impl PostgresConfiguration {
    /// Builds the settings from the values of the `SUPABASE_DB*` variables,
    /// falling back on `PGHOST`, `PGUSER`, `PGPASSWORD` and `PGPORT`.
    pub fn from_env(env: EnvValues) -> (r: Result<Self, ConfigError>)
        ensures
            match r {
                Ok(c) => configuration_from(env) == Ok::<ConfigurationView, ConfigError>(c@),
                Err(e) => configuration_from(env) == Err::<ConfigurationView, ConfigError>(e),
            },
            settings_rule(
                env,
                match r {
                    Ok(c) => Ok::<ConfigurationView, ConfigError>(c@),
                    Err(e) => Err::<ConfigurationView, ConfigError>(e),
                },
            ),
    {
        proof {
            law_settings_follow_variables(env);
        }
        let EnvValues {
            supabase_db,
            supabase_db_user,
            supabase_db_password,
            supabase_db_port,
            pghost,
            pguser,
            pgpassword,
            pgport,
        } = env;
        let url = either_exec(supabase_db, pghost);
        let user_name = either_exec(supabase_db_user, pguser);
        let password = either_exec(supabase_db_password, pgpassword);
        let port_text = either_exec(supabase_db_port, pgport);
        let url = match url {
            Some(v) => v,
            None => return Err(ConfigError::MissingUrl),
        };
        let user_name = match user_name {
            Some(v) => v,
            None => return Err(ConfigError::MissingUserName),
        };
        let password = match password {
            Some(v) => v,
            None => return Err(ConfigError::MissingPassword),
        };
        let port_text = match port_text {
            Some(v) => v,
            None => return Err(ConfigError::MissingPort),
        };
        let port = match parse_u16(port_text.as_str()) {
            Ok(p) => p,
            Err(kind) => return Err(ConfigError::InvalidPort(kind)),
        };
        Ok(PostgresConfiguration { url, user_name, password, port })
    }
}

/// `field` is the value of `preferred` where that variable is set, and the
/// value of `fallback` where it is not.
pub open spec fn taken_from(field: Seq<char>, preferred: Option<String>, fallback: Option<String>) -> bool {
    &&& preferred matches Some(v) ==> field == v@
    &&& preferred is None ==> (fallback matches Some(w) && field == w@)
}

/// `port` is what the text of `preferred` reads as where that variable is
/// set, and what the text of `fallback` reads as where it is not.
pub open spec fn port_taken_from(port: u16, preferred: Option<String>, fallback: Option<String>) -> bool {
    &&& preferred matches Some(t) ==> parse_u16_spec(encode_utf8(t@)) == Ok::<u16, ParseIntErrorKind>(
        port,
    )
    &&& preferred is None ==> (fallback matches Some(t) && parse_u16_spec(encode_utf8(t@)) == Ok::<
        u16,
        ParseIntErrorKind,
    >(port))
}

/// How the settings follow from the environment, setting by setting:
/// each one comes from its `SUPABASE_DB*` variable wherever that is set,
/// whatever the other variables hold, and from its `PG*` variable only where
/// the `SUPABASE_DB*` one is unset; the first setting, in the order url,
/// user name, password, port, that neither variable gives is the error; a
/// chosen port text that is no `u16` is the error `InvalidPort`; otherwise
/// the settings are read.
pub open spec fn settings_rule(env: EnvValues, r: Result<ConfigurationView, ConfigError>) -> bool {
    let has_url = env.supabase_db is Some || env.pghost is Some;
    let has_user = env.supabase_db_user is Some || env.pguser is Some;
    let has_password = env.supabase_db_password is Some || env.pgpassword is Some;
    let has_port = env.supabase_db_port is Some || env.pgport is Some;
    &&& r matches Ok(c) ==> {
        &&& taken_from(c.url, env.supabase_db, env.pghost)
        &&& taken_from(c.user_name, env.supabase_db_user, env.pguser)
        &&& taken_from(c.password, env.supabase_db_password, env.pgpassword)
        &&& port_taken_from(c.port, env.supabase_db_port, env.pgport)
    }
    &&& !has_url ==> r == Err::<ConfigurationView, ConfigError>(ConfigError::MissingUrl)
    &&& has_url && !has_user ==> r == Err::<ConfigurationView, ConfigError>(
        ConfigError::MissingUserName,
    )
    &&& has_url && has_user && !has_password ==> r == Err::<ConfigurationView, ConfigError>(
        ConfigError::MissingPassword,
    )
    &&& has_url && has_user && has_password && !has_port ==> r == Err::<
        ConfigurationView,
        ConfigError,
    >(ConfigError::MissingPort)
    &&& has_url && has_user && has_password ==> (env.supabase_db_port matches Some(t) ==> (
    parse_u16_spec(encode_utf8(t@)) matches Err(k) ==> r == Err::<ConfigurationView, ConfigError>(
        ConfigError::InvalidPort(k),
    )))
    &&& has_url && has_user && has_password && env.supabase_db_port is None ==> (env.pgport matches Some(
        t,
    ) ==> (parse_u16_spec(encode_utf8(t@)) matches Err(k) ==> r == Err::<
        ConfigurationView,
        ConfigError,
    >(ConfigError::InvalidPort(k))))
    &&& has_url && has_user && has_password ==> (env.supabase_db_port matches Some(t) ==> (
    parse_u16_spec(encode_utf8(t@)) is Ok ==> r is Ok))
    &&& has_url && has_user && has_password && env.supabase_db_port is None ==> (env.pgport matches Some(
        t,
    ) ==> (parse_u16_spec(encode_utf8(t@)) is Ok ==> r is Ok))
}

/// The settings read from the environment obey `settings_rule`: each
/// setting comes from its `SUPABASE_DB*` variable wherever that is set,
/// from its `PG*` variable otherwise, and a setting that neither gives is
/// reported in the order url, user name, password, port.
pub proof fn law_settings_follow_variables(env: EnvValues)
    ensures
        settings_rule(env, configuration_from(env)),
{
    let r = configuration_from(env);
    if r is Ok {
        let c = r->Ok_0;
        assert(taken_from(c.url, env.supabase_db, env.pghost));
        assert(taken_from(c.user_name, env.supabase_db_user, env.pguser));
        assert(taken_from(c.password, env.supabase_db_password, env.pgpassword));
        assert(port_taken_from(c.port, env.supabase_db_port, env.pgport));
    }
}

/// A `SUPABASE_DB*` variable that is set wins over its `PG*` counterpart:
/// when all four `SUPABASE_DB*` variables are set, the `PG*` variables make
/// no difference to the outcome.
pub proof fn law_supabase_values_take_precedence(env: EnvValues, other: EnvValues)
    requires
        env.supabase_db is Some,
        env.supabase_db_user is Some,
        env.supabase_db_password is Some,
        env.supabase_db_port is Some,
        other.supabase_db == env.supabase_db,
        other.supabase_db_user == env.supabase_db_user,
        other.supabase_db_password == env.supabase_db_password,
        other.supabase_db_port == env.supabase_db_port,
    ensures
        configuration_from(env) == configuration_from(other),
{
}

} // verus!
