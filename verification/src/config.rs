//! Application configuration.
//!
//! The configuration is read from environment variables. Reading the
//! process environment (and a `.env` file) happens at the edge; this module
//! turns the variables into a validated configuration, failing on the first
//! missing or malformed value with the same message every time.

use vstd::prelude::*;

use crate::numbers::{
    decimal, format_u64, parse_bool, parse_bool_str, parse_i64, parse_i64_str, parse_unsigned,
    parse_unsigned_str,
};
use crate::text::{
    chars_equal, chars_vec, lemma_split_step, push_str, split_on, str_trim, string_from_range,
    trim_ws,
};

verus! {

// =========================================================================
// SUBSYSTEM CONFIGURATIONS
// =========================================================================

/// The deployment environment.
#[derive(Debug, Clone, Copy, PartialEq, Eq, Structural)]
pub enum Environment {
    Development,
    Test,
    Production,
}

impl Environment {
    /// Whether this is the production environment.
    pub fn is_production(self) -> (r: bool)
        ensures
            r == (self == Environment::Production),
    {
        match self {
            Environment::Production => true,
            _ => false,
        }
    }
}

/// Configuration of the HTTP delivery layer.
#[derive(Debug, Clone)]
pub struct ServerConfig {
    pub host: String,
    pub port: u16,
}

impl ServerConfig {
    /// The `host:port` address the listener binds to.
    pub fn bind_address(&self) -> (addr: String)
        ensures
            addr@ == self.host@ + ":"@ + decimal(self.port as nat),
    {
        let mut addr = self.host.clone();
        push_str(&mut addr, ":");
        let port = format_u64(self.port as u64);
        push_str(&mut addr, port.as_str());
        addr
    }
}

/// Configuration of the startup process.
#[derive(Debug, Clone)]
pub struct StartupConfig {
    pub run_migrations: bool,
}

/// Configuration of the primary PostgreSQL store.
#[derive(Debug, Clone)]
pub struct DatabaseConfig {
    /// The full connection string.
    pub url: String,
    /// Maximum number of concurrent connections in the pool.
    pub max_connections: u32,
}

/// Configuration of the Redis cache.
#[derive(Debug, Clone)]
pub struct RedisConfig {
    /// The connection string of the Redis client.
    pub url: String,
}

/// Configuration of security and authentication.
#[derive(Debug, Clone)]
pub struct AuthenticationConfig {
    pub jwt: JwtConfig,
    pub session: SessionConfig,
    /// Principal cache time-to-live, in seconds.
    pub principal_cache_ttl_seconds: u64,
}

/// Configuration of JSON Web Tokens.
#[derive(Debug, Clone)]
pub struct JwtConfig {
    /// The secret used for signing.
    pub secret: String,
    /// The issuer of the tokens this API produces.
    pub issuer: String,
    /// The intended audience of the tokens this API produces.
    pub audience: String,
    /// Access-token lifetime, in seconds.
    pub access_ttl_seconds: i64,
    /// Refresh-token lifetime, in seconds.
    pub refresh_ttl_seconds: i64,
}

/// Configuration of session authentication.
#[derive(Debug, Clone)]
pub struct SessionConfig {
    /// Cookie name used for session authentication.
    pub cookie_name: String,
    /// Session lifetime, in seconds.
    pub ttl_seconds: u64,
    /// Whether cookies are HTTPS-only.
    pub secure_cookie: bool,
}

/// Configuration of Cross-Origin Resource Sharing.
#[derive(Debug, Clone)]
pub struct CorsConfig {
    /// The exact origins allowed to call the API.
    pub allowed_origins: Vec<String>,
}

/// The root configuration.
#[derive(Debug, Clone)]
pub struct AppConfig {
    pub environment: Environment,
    pub startup: StartupConfig,
    pub server: ServerConfig,
    pub database: DatabaseConfig,
    pub redis: RedisConfig,
    pub authentication: AuthenticationConfig,
    pub cors: CorsConfig,
    pub log_level: String,
}

// =========================================================================
// SPECIFICATION
// =========================================================================

/// The environment variables as character sequences.
pub open spec fn env_view(vars: Seq<(String, String)>) -> Seq<(Seq<char>, Seq<char>)> {
    vars.map_values(|p: (String, String)| (p.0@, p.1@))
}

/// The value of the first variable named `key`, if any.
pub open spec fn env_get(vars: Seq<(Seq<char>, Seq<char>)>, key: Seq<char>) -> Option<Seq<char>>
    decreases vars.len(),
{
    if vars.len() == 0 {
        None
    } else if vars[0].0 == key {
        Some(vars[0].1)
    } else {
        env_get(vars.drop_first(), key)
    }
}

/// The value of `key`, or `default` when it is not set.
pub open spec fn env_or(vars: Seq<(Seq<char>, Seq<char>)>, key: Seq<char>, default: Seq<char>) -> Seq<char> {
    match env_get(vars, key) {
        Some(v) => v,
        None => default,
    }
}

/// The environment named by `APP_ENV`.
pub open spec fn environment_named(s: Seq<char>) -> Option<Environment> {
    if s == "development"@ {
        Some(Environment::Development)
    } else if s == "test"@ {
        Some(Environment::Test)
    } else if s == "production"@ {
        Some(Environment::Production)
    } else {
        None
    }
}

/// The text `bool::to_string` gives.
pub open spec fn bool_text(b: bool) -> Seq<char> {
    if b {
        "true"@
    } else {
        "false"@
    }
}


/// The trimmed pieces that are not empty, in order.
pub open spec fn nonempty_trimmed(pieces: Seq<Seq<char>>) -> Seq<Seq<char>>
    decreases pieces.len(),
{
    if pieces.len() == 0 {
        Seq::empty()
    } else {
        let done = nonempty_trimmed(pieces.drop_last());
        let t = trim_ws(pieces.last());
        if t.len() > 0 {
            done.push(t)
        } else {
            done
        }
    }
}

/// The allowed origins in a comma-separated list: surrounding whitespace
/// removed and empty entries dropped.
pub open spec fn cors_origins(raw: Seq<char>) -> Seq<Seq<char>> {
    nonempty_trimmed(split_on(raw, ','))
}

/// The message for a required variable that is missing.
pub open spec fn missing_message(key: Seq<char>) -> Seq<char> {
    "CRITICAL: Missing required environment variable: "@ + key
}

/// The message for an unknown `APP_ENV`.
pub open spec fn app_env_message(got: Seq<char>) -> Seq<char> {
    "CRITICAL: APP_ENV must be one of development, test, production. Got: "@ + got
}

/// The first problem with the variables, in the order in which the
/// configuration is assembled, or `None` when it can be built.
pub open spec fn config_error(v: Seq<(Seq<char>, Seq<char>)>) -> Option<Seq<char>> {
    let app_env = env_or(v, "APP_ENV"@, "development"@);
    let environment = environment_named(app_env);
    if environment is None {
        Some(app_env_message(app_env))
    } else if parse_bool(env_or(v, "RUN_MIGRATIONS"@, "false"@)) is None {
        Some("CRITICAL: RUN_MIGRATIONS must be true or false"@)
    } else if parse_unsigned(env_or(v, "SERVER_PORT"@, "3000"@), 0xFFFF) is None {
        Some("CRITICAL: SERVER_PORT must be a valid u16"@)
    } else if env_get(v, "DATABASE_URL"@) is None {
        Some(missing_message("DATABASE_URL"@))
    } else if parse_unsigned(env_or(v, "DATABASE_MAX_CONNECTIONS"@, "50"@), 0xFFFF_FFFF) is None {
        Some("CRITICAL: DATABASE_MAX_CONNECTIONS must be a valid u32"@)
    } else if env_get(v, "REDIS_URL"@) is None {
        Some(missing_message("REDIS_URL"@))
    } else if parse_unsigned(
        env_or(v, "AUTH_PRINCIPAL_CACHE_TTL_SECONDS"@, "3600"@),
        0xFFFF_FFFF_FFFF_FFFF,
    ) is None {
        Some("CRITICAL: AUTH_PRINCIPAL_CACHE_TTL_SECONDS must be a valid u64"@)
    } else if env_get(v, "AUTH_JWT_SECRET"@) is None {
        Some(missing_message("AUTH_JWT_SECRET"@))
    } else if parse_i64(env_or(v, "AUTH_JWT_ACCESS_TTL_SECONDS"@, "900"@)) is None {
        Some("CRITICAL: AUTH_JWT_ACCESS_TTL_SECONDS must be a valid i64"@)
    } else if parse_i64(env_or(v, "AUTH_JWT_REFRESH_TTL_SECONDS"@, "2592000"@)) is None {
        Some("CRITICAL: AUTH_JWT_REFRESH_TTL_SECONDS must be a valid i64"@)
    } else if parse_unsigned(
        env_or(v, "AUTH_SESSION_TTL_SECONDS"@, "604800"@),
        0xFFFF_FFFF_FFFF_FFFF,
    ) is None {
        Some("CRITICAL: AUTH_SESSION_TTL_SECONDS must be a valid u64"@)
    } else if parse_bool(
        env_or(
            v,
            "AUTH_SESSION_SECURE_COOKIE"@,
            bool_text(environment->0 == Environment::Production),
        ),
    ) is None {
        Some("CRITICAL: AUTH_SESSION_SECURE_COOKIE must be true or false"@)
    } else if env_get(v, "CORS_ALLOWED_ORIGINS"@) is None {
        Some(missing_message("CORS_ALLOWED_ORIGINS"@))
    } else {
        None
    }
}

/// The views of a list of strings.
pub open spec fn strings_view(v: Seq<String>) -> Seq<Seq<char>> {
    v.map_values(|s: String| s@)
}

/// `c` is the configuration the variables describe (defaults applied).
pub open spec fn config_from(c: AppConfig, v: Seq<(Seq<char>, Seq<char>)>) -> bool {
    let environment = environment_named(env_or(v, "APP_ENV"@, "development"@))->0;
    &&& c.environment == environment
    &&& c.startup.run_migrations == parse_bool(env_or(v, "RUN_MIGRATIONS"@, "false"@))->0
    &&& c.server.host@ == env_or(v, "SERVER_HOST"@, "0.0.0.0"@)
    &&& c.server.port == parse_unsigned(env_or(v, "SERVER_PORT"@, "3000"@), 0xFFFF)->0
    &&& c.database.url@ == env_get(v, "DATABASE_URL"@)->0
    &&& c.database.max_connections == parse_unsigned(
        env_or(v, "DATABASE_MAX_CONNECTIONS"@, "50"@),
        0xFFFF_FFFF,
    )->0
    &&& c.redis.url@ == env_get(v, "REDIS_URL"@)->0
    &&& c.authentication.principal_cache_ttl_seconds == parse_unsigned(
        env_or(v, "AUTH_PRINCIPAL_CACHE_TTL_SECONDS"@, "3600"@),
        0xFFFF_FFFF_FFFF_FFFF,
    )->0
    &&& c.authentication.jwt.secret@ == env_get(v, "AUTH_JWT_SECRET"@)->0
    &&& c.authentication.jwt.issuer@ == env_or(v, "AUTH_JWT_ISSUER"@, "my-app"@)
    &&& c.authentication.jwt.audience@ == env_or(v, "AUTH_JWT_AUDIENCE"@, "my-app-api"@)
    &&& c.authentication.jwt.access_ttl_seconds == parse_i64(
        env_or(v, "AUTH_JWT_ACCESS_TTL_SECONDS"@, "900"@),
    )->0
    &&& c.authentication.jwt.refresh_ttl_seconds == parse_i64(
        env_or(v, "AUTH_JWT_REFRESH_TTL_SECONDS"@, "2592000"@),
    )->0
    &&& c.authentication.session.cookie_name@ == env_or(v, "AUTH_SESSION_COOKIE_NAME"@, "sid"@)
    &&& c.authentication.session.ttl_seconds == parse_unsigned(
        env_or(v, "AUTH_SESSION_TTL_SECONDS"@, "604800"@),
        0xFFFF_FFFF_FFFF_FFFF,
    )->0
    &&& c.authentication.session.secure_cookie == parse_bool(
        env_or(
            v,
            "AUTH_SESSION_SECURE_COOKIE"@,
            bool_text(environment == Environment::Production),
        ),
    )->0
    &&& strings_view(c.cors.allowed_origins@) == cors_origins(
        env_get(v, "CORS_ALLOWED_ORIGINS"@)->0,
    )
    &&& c.log_level@ == env_or(v, "LOG_LEVEL"@, "info"@)
}


/// Whether `c`'s session cookie flag follows `AUTH_SESSION_SECURE_COOKIE`:
/// an explicit `true` or `false` is used as given, whatever the
/// environment; only when the variable is unset does the environment decide
/// (secure exactly in production).
pub open spec fn secure_cookie_follows_setting(c: AppConfig, v: Seq<(Seq<char>, Seq<char>)>) -> bool {
    match env_get(v, "AUTH_SESSION_SECURE_COOKIE"@) {
        Some(t) => (t == "true"@ ==> c.authentication.session.secure_cookie) && (t == "false"@
            ==> !c.authentication.session.secure_cookie),
        None => c.authentication.session.secure_cookie == (c.environment
            == Environment::Production),
    }
}

/// The cookie flag of a configuration built from the variables follows the
/// setting: an explicit value wins in every environment, and the
/// environment only supplies the default.
pub proof fn lemma_secure_cookie_follows_setting(c: AppConfig, v: Seq<(Seq<char>, Seq<char>)>)
    requires
        config_error(v) is None,
        config_from(c, v),
    ensures
        secure_cookie_follows_setting(c, v),
{
    reveal_strlit("true");
    reveal_strlit("false");
    assert("true"@ != "false"@) by {
        assert("true"@.len() != "false"@.len());
    }
    assert(parse_bool("true"@) == Some(true));
    assert(parse_bool("false"@) == Some(false));
}

// =========================================================================
// ASSEMBLY
// =========================================================================

/// The value of the first variable named `key`, if any.
pub fn env_lookup(vars: &Vec<(String, String)>, key: &str) -> (r: Option<String>)
    ensures
        match env_get(env_view(vars@), key@) {
            Some(s) => r matches Some(x) && x@ == s,
            None => r is None,
        },
{
    let ghost view = env_view(vars@);
    let wanted = key.to_owned();
    let mut i: usize = 0;
    assert(view.skip(0) =~= view);
    while i < vars.len()
        invariant
            i <= vars.len(),
            view == env_view(vars@),
            wanted@ == key@,
            env_get(view, key@) == env_get(view.skip(i as int), key@),
        decreases vars.len() - i,
    {
        let ghost rest = view.skip(i as int);
        assert(rest[0] == (vars@[i as int].0@, vars@[i as int].1@));
        if vars[i].0 == wanted {
            return Some(vars[i].1.clone());
        }
        assert(rest.drop_first() =~= view.skip(i + 1));
        i = i + 1;
    }
    assert(view.skip(i as int).len() == 0);
    None
}

/// The value of `key`, or `default` when it is not set.
pub fn env_lookup_or(vars: &Vec<(String, String)>, key: &str, default: &str) -> (r: String)
    ensures
        r@ == env_or(env_view(vars@), key@, default@),
{
    match env_lookup(vars, key) {
        Some(v) => v,
        None => default.to_owned(),
    }
}

/// Recognizes the name of an environment.
pub fn environment_from_name(s: &str) -> (r: Option<Environment>)
    ensures
        r == environment_named(s@),
{
    let v = chars_vec(s);
    if chars_equal(&v, &chars_vec("development")) {
        Some(Environment::Development)
    } else if chars_equal(&v, &chars_vec("test")) {
        Some(Environment::Test)
    } else if chars_equal(&v, &chars_vec("production")) {
        Some(Environment::Production)
    } else {
        None
    }
}


/// Adds a piece to the cleaned list when it is not blank.
fn push_trimmed(out: &mut Vec<String>, piece: &String, ghost_done: Ghost<Seq<Seq<char>>>)
    requires
        strings_view(old(out)@) == nonempty_trimmed(ghost_done@),
    ensures
        strings_view(final(out)@) == nonempty_trimmed(ghost_done@.push(piece@)),
{
    let trimmed = str_trim(piece.as_str());
    assert(ghost_done@.push(piece@).drop_last() =~= ghost_done@);
    if !trimmed.is_empty() {
        let t = trimmed.to_owned();
        let ghost before = out@;
        out.push(t);
        assert(strings_view(out@) =~= strings_view(before).push(t@));
    }
}

/// The allowed origins listed in `raw`, comma-separated.
pub fn parse_origins(raw: &str) -> (r: Vec<String>)
    ensures
        strings_view(r@) == cors_origins(raw@),
{
    let v = chars_vec(raw);
    let mut out: Vec<String> = Vec::new();
    let mut start: usize = 0;
    let mut i: usize = 0;
    let ghost mut done: Seq<Seq<char>> = Seq::empty();
    assert(v@.take(0) =~= Seq::<char>::empty());
    assert(split_on(v@.take(0), ',') =~= done.push(v@.subrange(0, 0)));
    while i < v.len()
        invariant
            start <= i <= v.len(),
            split_on(v@.take(i as int), ',') == done.push(v@.subrange(start as int, i as int)),
            strings_view(out@) == nonempty_trimmed(done),
        decreases v.len() - i,
    {
        let c = v[i];
        proof {
            lemma_split_step(v@.take(i as int), ',', c, done, v@.subrange(start as int, i as int));
            assert(v@.take(i as int).push(c) =~= v@.take(i + 1));
        }
        if c == ',' {
            let piece = string_from_range(&v, start, i);
            push_trimmed(&mut out, &piece, Ghost(done));
            proof {
                done = done.push(piece@);
                assert(v@.subrange(i + 1, i + 1) =~= Seq::<char>::empty());
            }
            start = i + 1;
        } else {
            assert(v@.subrange(start as int, i as int).push(c) =~= v@.subrange(
                start as int,
                i + 1,
            ));
        }
        i = i + 1;
    }
    let last = string_from_range(&v, start, v.len());
    push_trimmed(&mut out, &last, Ghost(done));
    assert(v@.take(v.len() as int) =~= v@);
    assert(split_on(raw@, ',') == done.push(last@));
    assert(split_on(raw@, ',').drop_last() =~= done);
    out
}

/// The message for a missing required variable.
fn missing_variable(key: &str) -> (msg: String)
    ensures
        msg@ == missing_message(key@),
{
    let mut msg = String::new();
    push_str(&mut msg, "CRITICAL: Missing required environment variable: ");
    push_str(&mut msg, key);
    msg
}

impl AppConfig {
    /// Builds the configuration from environment variables (name, value).
    ///
    /// Optional variables fall back to their defaults; the first missing
    /// required variable or malformed value, in assembly order, is reported
    /// as an error message.
    pub fn from_vars(vars: &Vec<(String, String)>) -> (r: Result<AppConfig, String>)
        ensures
            match config_error(env_view(vars@)) {
                Some(msg) => r matches Err(e) && e@ == msg,
                None => r matches Ok(c) && config_from(c, env_view(vars@)),
            },
            r matches Ok(c) ==> secure_cookie_follows_setting(c, env_view(vars@)),
    {
        let ghost v = env_view(vars@);
        let app_env = env_lookup_or(vars, "APP_ENV", "development");
        let environment = match environment_from_name(app_env.as_str()) {
            Some(e) => e,
            None => {
                let mut msg = String::new();
                push_str(
                    &mut msg,
                    "CRITICAL: APP_ENV must be one of development, test, production. Got: ",
                );
                push_str(&mut msg, app_env.as_str());
                return Err(msg);
            },
        };
        let run_migrations = match parse_bool_str(
            env_lookup_or(vars, "RUN_MIGRATIONS", "false").as_str(),
        ) {
            Some(b) => b,
            None => {
                return Err("CRITICAL: RUN_MIGRATIONS must be true or false".to_owned());
            },
        };
        let host = env_lookup_or(vars, "SERVER_HOST", "0.0.0.0");
        let port = match parse_unsigned_str(
            env_lookup_or(vars, "SERVER_PORT", "3000").as_str(),
            0xFFFF,
        ) {
            Some(p) => p as u16,
            None => {
                return Err("CRITICAL: SERVER_PORT must be a valid u16".to_owned());
            },
        };
        let database_url = match env_lookup(vars, "DATABASE_URL") {
            Some(u) => u,
            None => {
                return Err(missing_variable("DATABASE_URL"));
            },
        };
        let max_connections = match parse_unsigned_str(
            env_lookup_or(vars, "DATABASE_MAX_CONNECTIONS", "50").as_str(),
            0xFFFF_FFFF,
        ) {
            Some(n) => n as u32,
            None => {
                return Err("CRITICAL: DATABASE_MAX_CONNECTIONS must be a valid u32".to_owned());
            },
        };
        let redis_url = match env_lookup(vars, "REDIS_URL") {
            Some(u) => u,
            None => {
                return Err(missing_variable("REDIS_URL"));
            },
        };
        let principal_cache_ttl_seconds = match parse_unsigned_str(
            env_lookup_or(vars, "AUTH_PRINCIPAL_CACHE_TTL_SECONDS", "3600").as_str(),
            0xFFFF_FFFF_FFFF_FFFF,
        ) {
            Some(n) => n,
            None => {
                return Err(
                    "CRITICAL: AUTH_PRINCIPAL_CACHE_TTL_SECONDS must be a valid u64".to_owned(),
                );
            },
        };
        let secret = match env_lookup(vars, "AUTH_JWT_SECRET") {
            Some(s) => s,
            None => {
                return Err(missing_variable("AUTH_JWT_SECRET"));
            },
        };
        let issuer = env_lookup_or(vars, "AUTH_JWT_ISSUER", "my-app");
        let audience = env_lookup_or(vars, "AUTH_JWT_AUDIENCE", "my-app-api");
        let access_ttl_seconds = match parse_i64_str(
            env_lookup_or(vars, "AUTH_JWT_ACCESS_TTL_SECONDS", "900").as_str(),
        ) {
            Some(n) => n,
            None => {
                return Err("CRITICAL: AUTH_JWT_ACCESS_TTL_SECONDS must be a valid i64".to_owned());
            },
        };
        let refresh_ttl_seconds = match parse_i64_str(
            env_lookup_or(vars, "AUTH_JWT_REFRESH_TTL_SECONDS", "2592000").as_str(),
        ) {
            Some(n) => n,
            None => {
                return Err(
                    "CRITICAL: AUTH_JWT_REFRESH_TTL_SECONDS must be a valid i64".to_owned(),
                );
            },
        };
        let cookie_name = env_lookup_or(vars, "AUTH_SESSION_COOKIE_NAME", "sid");
        let ttl_seconds = match parse_unsigned_str(
            env_lookup_or(vars, "AUTH_SESSION_TTL_SECONDS", "604800").as_str(),
            0xFFFF_FFFF_FFFF_FFFF,
        ) {
            Some(n) => n,
            None => {
                return Err("CRITICAL: AUTH_SESSION_TTL_SECONDS must be a valid u64".to_owned());
            },
        };
        let secure_default = if environment.is_production() {
            "true"
        } else {
            "false"
        };
        let secure_cookie = match parse_bool_str(
            env_lookup_or(vars, "AUTH_SESSION_SECURE_COOKIE", secure_default).as_str(),
        ) {
            Some(b) => b,
            None => {
                return Err(
                    "CRITICAL: AUTH_SESSION_SECURE_COOKIE must be true or false".to_owned(),
                );
            },
        };
        let origins_raw = match env_lookup(vars, "CORS_ALLOWED_ORIGINS") {
            Some(s) => s,
            None => {
                return Err(missing_variable("CORS_ALLOWED_ORIGINS"));
            },
        };
        let allowed_origins = parse_origins(origins_raw.as_str());
        let log_level = env_lookup_or(vars, "LOG_LEVEL", "info");
        let config = AppConfig {
            environment,
            startup: StartupConfig { run_migrations },
            server: ServerConfig { host, port },
            database: DatabaseConfig { url: database_url, max_connections },
            redis: RedisConfig { url: redis_url },
            authentication: AuthenticationConfig {
                jwt: JwtConfig { secret, issuer, audience, access_ttl_seconds, refresh_ttl_seconds },
                session: SessionConfig { cookie_name, ttl_seconds, secure_cookie },
                principal_cache_ttl_seconds,
            },
            cors: CorsConfig { allowed_origins },
            log_level,
        };
        proof {
            lemma_secure_cookie_follows_setting(config, v);
        }
        Ok(config)
    }
}

} // verus!
