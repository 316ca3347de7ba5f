use psql_backuper::config::{AppConfig, DatabaseConfig, Environment};

fn some(text: &str) -> Option<String> {
    Some(text.to_string())
}

fn bare() -> Environment {
    Environment { current_dir: "/srv/app".to_string(), ..Environment::default() }
}

#[test]
fn an_empty_environment_gives_the_defaults() {
    let config = AppConfig::from_env(&bare());
    assert_eq!(
        config,
        AppConfig {
            db: DatabaseConfig {
                host: "localhost".to_string(),
                port: 5432,
                username: "postgres".to_string(),
                password: None,
            },
            interval: None,
            restore: false,
            save_path: "/srv/app/dumps".to_string(),
            restore_path: "/srv/app/dumps".to_string(),
            webhook_url: None,
        }
    );
}

#[test]
fn every_setting_can_be_given() {
    let env = Environment {
        host: some("db.internal"),
        port: some("6543"),
        username: some("backup"),
        password: some("s3cret"),
        save_path: some("/var/backups"),
        restore_path: some("/var/restore"),
        interval: some("3600"),
        restore: some("true"),
        webhook_url: some("https://example.test/hook"),
        args: vec!["prog".to_string()],
        current_dir: "/srv/app".to_string(),
    };
    let config = AppConfig::from_env(&env);
    assert_eq!(
        config,
        AppConfig {
            db: DatabaseConfig {
                host: "db.internal".to_string(),
                port: 6543,
                username: "backup".to_string(),
                password: some("s3cret"),
            },
            interval: Some(3600),
            restore: true,
            save_path: "/var/backups".to_string(),
            restore_path: "/var/restore".to_string(),
            webhook_url: some("https://example.test/hook"),
        }
    );
}

#[test]
fn a_port_that_is_no_port_falls_back() {
    for text in ["", "abc", "65536", "-1", " 5433", "54 33"] {
        let env = Environment { port: some(text), ..bare() };
        assert_eq!(AppConfig::from_env(&env).db.port, 5432, "{:?}", text);
    }
    let env = Environment { port: some("65535"), ..bare() };
    assert_eq!(AppConfig::from_env(&env).db.port, 65535);
    let env = Environment { port: some("0"), ..bare() };
    assert_eq!(AppConfig::from_env(&env).db.port, 0);
}

#[test]
fn an_interval_that_is_no_number_is_none() {
    for text in ["", "soon", "-5", "1.5", "18446744073709551616"] {
        let env = Environment { interval: some(text), ..bare() };
        assert_eq!(AppConfig::from_env(&env).interval, None, "{:?}", text);
    }
    let env = Environment { interval: some("0"), ..bare() };
    assert_eq!(AppConfig::from_env(&env).interval, Some(0));
    let env = Environment { interval: some("18446744073709551615"), ..bare() };
    assert_eq!(AppConfig::from_env(&env).interval, Some(u64::MAX));
}

#[test]
fn restore_takes_the_switch_or_the_argument() {
    assert!(!AppConfig::from_env(&bare()).restore);
    for text in ["false", "TRUE", "1", "", "true "] {
        let env = Environment { restore: some(text), ..bare() };
        assert!(!AppConfig::from_env(&env).restore, "{:?}", text);
    }
    let env = Environment { restore: some("true"), ..bare() };
    assert!(AppConfig::from_env(&env).restore);
    let env = Environment { args: vec!["prog".to_string(), "restore".to_string()], ..bare() };
    assert!(AppConfig::from_env(&env).restore);
    let env = Environment { args: vec!["prog".to_string(), "--restore".to_string()], ..bare() };
    assert!(!AppConfig::from_env(&env).restore);
    let env = Environment {
        restore: some("false"),
        args: vec!["restore".to_string()],
        ..bare()
    };
    assert!(AppConfig::from_env(&env).restore);
}

#[test]
fn a_blank_webhook_is_none() {
    for text in ["", " ", "\t\n", "\u{3000}"] {
        let env = Environment { webhook_url: some(text), ..bare() };
        assert_eq!(AppConfig::from_env(&env).webhook_url, None, "{:?}", text);
    }
    let env = Environment { webhook_url: some(" https://example.test/hook "), ..bare() };
    assert_eq!(AppConfig::from_env(&env).webhook_url, some(" https://example.test/hook "));
}

#[test]
fn the_default_directory_lies_under_the_working_directory() {
    let env = Environment { current_dir: "/".to_string(), ..Environment::default() };
    assert_eq!(AppConfig::from_env(&env).save_path, "/dumps");
    let env = Environment { save_path: some("/a"), ..bare() };
    let config = AppConfig::from_env(&env);
    assert_eq!(config.save_path, "/a");
    assert_eq!(config.restore_path, "/srv/app/dumps");
}
