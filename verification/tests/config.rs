use authkit::config::{parse_origins, AppConfig, Environment, ServerConfig};
use authkit::numbers::{format_u64, parse_bool_str, parse_i64_str, parse_unsigned_str};

fn vars(pairs: &[(&str, &str)]) -> Vec<(String, String)> {
    pairs.iter().map(|(k, v)| (k.to_string(), v.to_string())).collect()
}

fn required() -> Vec<(String, String)> {
    vars(&[
        ("DATABASE_URL", "postgres://localhost/app"),
        ("REDIS_URL", "redis://localhost:6379"),
        ("AUTH_JWT_SECRET", "s3cret"),
        ("CORS_ALLOWED_ORIGINS", " https://a.example , ,https://b.example "),
    ])
}

#[test]
fn defaults_apply_when_only_required_variables_are_set() {
    let c = AppConfig::from_vars(&required()).unwrap();
    assert_eq!(c.environment, Environment::Development);
    assert!(!c.startup.run_migrations);
    assert_eq!(c.server.host, "0.0.0.0");
    assert_eq!(c.server.port, 3000);
    assert_eq!(c.database.url, "postgres://localhost/app");
    assert_eq!(c.database.max_connections, 50);
    assert_eq!(c.redis.url, "redis://localhost:6379");
    assert_eq!(c.authentication.principal_cache_ttl_seconds, 3600);
    assert_eq!(c.authentication.jwt.secret, "s3cret");
    assert_eq!(c.authentication.jwt.issuer, "my-app");
    assert_eq!(c.authentication.jwt.audience, "my-app-api");
    assert_eq!(c.authentication.jwt.access_ttl_seconds, 900);
    assert_eq!(c.authentication.jwt.refresh_ttl_seconds, 2_592_000);
    assert_eq!(c.authentication.session.cookie_name, "sid");
    assert_eq!(c.authentication.session.ttl_seconds, 604_800);
    assert!(!c.authentication.session.secure_cookie);
    assert_eq!(c.cors.allowed_origins, vec!["https://a.example".to_string(), "https://b.example".to_string()]);
    assert_eq!(c.log_level, "info");
    assert_eq!(c.server.bind_address(), "0.0.0.0:3000");
}

#[test]
fn production_defaults_to_secure_cookies() {
    let mut v = required();
    v.push(("APP_ENV".to_string(), "production".to_string()));
    let c = AppConfig::from_vars(&v).unwrap();
    assert_eq!(c.environment, Environment::Production);
    assert!(c.environment.is_production());
    assert!(c.authentication.session.secure_cookie);
    v.push(("AUTH_SESSION_SECURE_COOKIE".to_string(), "false".to_string()));
    assert!(!AppConfig::from_vars(&v).unwrap().authentication.session.secure_cookie);
}

#[test]
fn explicit_values_override_defaults() {
    let mut v = required();
    v.extend(vars(&[
        ("APP_ENV", "test"),
        ("RUN_MIGRATIONS", "true"),
        ("SERVER_HOST", "127.0.0.1"),
        ("SERVER_PORT", "8080"),
        ("DATABASE_MAX_CONNECTIONS", "+7"),
        ("AUTH_JWT_ISSUER", "issuer"),
        ("AUTH_JWT_AUDIENCE", "aud"),
        ("AUTH_JWT_ACCESS_TTL_SECONDS", "-5"),
        ("AUTH_SESSION_COOKIE_NAME", "session"),
        ("LOG_LEVEL", "debug"),
    ]));
    let c = AppConfig::from_vars(&v).unwrap();
    assert_eq!(c.environment, Environment::Test);
    assert!(!c.environment.is_production());
    assert!(c.startup.run_migrations);
    assert_eq!(c.server.bind_address(), "127.0.0.1:8080");
    assert_eq!(c.database.max_connections, 7);
    assert_eq!(c.authentication.jwt.issuer, "issuer");
    assert_eq!(c.authentication.jwt.audience, "aud");
    assert_eq!(c.authentication.jwt.access_ttl_seconds, -5);
    assert_eq!(c.authentication.session.cookie_name, "session");
    assert_eq!(c.log_level, "debug");
}

#[test]
fn malformed_run_migrations_is_reported() {
    let mut v = required();
    v.push(("RUN_MIGRATIONS".to_string(), "yes".to_string()));
    assert_eq!(
        AppConfig::from_vars(&v).err(),
        Some("CRITICAL: RUN_MIGRATIONS must be true or false".to_string())
    );
}

#[test]
fn unknown_environment_is_reported() {
    let mut v = required();
    v.push(("APP_ENV".to_string(), "staging".to_string()));
    assert_eq!(
        AppConfig::from_vars(&v).err(),
        Some("CRITICAL: APP_ENV must be one of development, test, production. Got: staging".to_string())
    );
}

#[test]
fn missing_required_variables_are_reported_in_order() {
    assert_eq!(
        AppConfig::from_vars(&Vec::new()).err(),
        Some("CRITICAL: Missing required environment variable: DATABASE_URL".to_string())
    );
    let v = vars(&[("DATABASE_URL", "x")]);
    assert_eq!(
        AppConfig::from_vars(&v).err(),
        Some("CRITICAL: Missing required environment variable: REDIS_URL".to_string())
    );
    let v = vars(&[("DATABASE_URL", "x"), ("REDIS_URL", "y")]);
    assert_eq!(
        AppConfig::from_vars(&v).err(),
        Some("CRITICAL: Missing required environment variable: AUTH_JWT_SECRET".to_string())
    );
    let v = vars(&[("DATABASE_URL", "x"), ("REDIS_URL", "y"), ("AUTH_JWT_SECRET", "z")]);
    assert_eq!(
        AppConfig::from_vars(&v).err(),
        Some("CRITICAL: Missing required environment variable: CORS_ALLOWED_ORIGINS".to_string())
    );
}

#[test]
fn malformed_numbers_are_reported() {
    let cases = [
        ("SERVER_PORT", "65536", "CRITICAL: SERVER_PORT must be a valid u16"),
        ("DATABASE_MAX_CONNECTIONS", "-1", "CRITICAL: DATABASE_MAX_CONNECTIONS must be a valid u32"),
        ("AUTH_PRINCIPAL_CACHE_TTL_SECONDS", "1h", "CRITICAL: AUTH_PRINCIPAL_CACHE_TTL_SECONDS must be a valid u64"),
        ("AUTH_JWT_ACCESS_TTL_SECONDS", "9223372036854775808", "CRITICAL: AUTH_JWT_ACCESS_TTL_SECONDS must be a valid i64"),
        ("AUTH_JWT_REFRESH_TTL_SECONDS", "", "CRITICAL: AUTH_JWT_REFRESH_TTL_SECONDS must be a valid i64"),
        ("AUTH_SESSION_TTL_SECONDS", " 5", "CRITICAL: AUTH_SESSION_TTL_SECONDS must be a valid u64"),
        ("AUTH_SESSION_SECURE_COOKIE", "TRUE", "CRITICAL: AUTH_SESSION_SECURE_COOKIE must be true or false"),
    ];
    for (key, value, message) in cases {
        let mut v = required();
        v.push((key.to_string(), value.to_string()));
        assert_eq!(AppConfig::from_vars(&v).err(), Some(message.to_string()), "{key}");
    }
}

#[test]
fn the_first_problem_wins() {
    let v = vars(&[("APP_ENV", "nope"), ("SERVER_PORT", "x")]);
    assert_eq!(
        AppConfig::from_vars(&v).err(),
        Some("CRITICAL: APP_ENV must be one of development, test, production. Got: nope".to_string())
    );
}

#[test]
fn origins_are_trimmed_and_empty_entries_dropped() {
    assert_eq!(parse_origins(""), Vec::<String>::new());
    assert_eq!(parse_origins(" , ,"), Vec::<String>::new());
    assert_eq!(parse_origins("a,b"), vec!["a".to_string(), "b".to_string()]);
    assert_eq!(parse_origins(" x ,\ty\n"), vec!["x".to_string(), "y".to_string()]);
}

#[test]
fn number_parsing_follows_std() {
    assert_eq!(parse_unsigned_str("65535", 0xFFFF), Some(65535));
    assert_eq!(parse_unsigned_str("65536", 0xFFFF), None);
    assert_eq!(parse_unsigned_str("+12", 0xFFFF), Some(12));
    assert_eq!(parse_unsigned_str("-0", 0xFFFF), None);
    assert_eq!(parse_unsigned_str("", 0xFFFF), None);
    assert_eq!(parse_unsigned_str("007", 0xFFFF), Some(7));
    assert_eq!(parse_i64_str("-9223372036854775808"), Some(i64::MIN));
    assert_eq!(parse_i64_str("9223372036854775807"), Some(i64::MAX));
    assert_eq!(parse_i64_str("-"), None);
    assert_eq!(parse_i64_str("+42"), Some(42));
    assert_eq!(parse_bool_str("true"), Some(true));
    assert_eq!(parse_bool_str("false"), Some(false));
    assert_eq!(parse_bool_str("True"), None);
    assert_eq!(format_u64(0), "0");
    assert_eq!(format_u64(1234567890), "1234567890");
    assert_eq!(format_u64(u64::MAX), "18446744073709551615");
}

#[test]
fn bind_address_formats_host_and_port() {
    let s = ServerConfig { host: "localhost".to_string(), port: 65535 };
    assert_eq!(s.bind_address(), "localhost:65535");
}
