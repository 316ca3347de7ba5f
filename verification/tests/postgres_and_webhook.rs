use psql_backuper::config::DatabaseConfig;
use psql_backuper::postgres::{DumpPlan, Invocation, PostgresManager, Tool};
use psql_backuper::webhook::{NotificationError, NotificationEvent, WebhookCall, WebhookClient};

fn server() -> DatabaseConfig {
    DatabaseConfig {
        host: "db.internal".to_string(),
        port: 6543,
        username: "backup".to_string(),
        password: Some("s3cret".to_string()),
    }
}

fn call(tool: Tool, command: Option<&str>, file: Option<&str>, dbname: Option<&str>) -> Invocation {
    Invocation {
        tool,
        command: command.map(str::to_string),
        file: file.map(str::to_string),
        dbname: dbname.map(str::to_string),
        host: "db.internal".to_string(),
        port: 6543,
        username: "backup".to_string(),
        password: Some("s3cret".to_string()),
    }
}

#[test]
fn the_listing_call_is_bound_to_no_database() {
    let config = server();
    let manager = PostgresManager::new(&config);
    assert_eq!(manager.list_databases_command(), call(Tool::Psql, Some("\\l"), None, None));
}

#[test]
fn a_command_can_be_bound_to_a_database() {
    let config = server();
    let manager = PostgresManager::new(&config);
    assert_eq!(
        manager.execute_psql_command("SELECT 1;", Some("app_db")),
        call(Tool::Psql, Some("SELECT 1;"), None, Some("app_db"))
    );
    assert_eq!(
        manager.execute_psql_command("SELECT 1;", None),
        call(Tool::Psql, Some("SELECT 1;"), None, None)
    );
}

#[test]
fn a_server_without_password_gives_calls_without_one() {
    let config = DatabaseConfig { password: None, ..server() };
    let manager = PostgresManager::new(&config);
    assert_eq!(manager.list_databases_command().password, None);
    assert_eq!(manager.restore_database("a", "/d/a.sql").password, None);
}

#[test]
fn create_quotes_the_name() {
    let config = server();
    let manager = PostgresManager::new(&config);
    assert_eq!(
        manager.create_database("app_db"),
        call(Tool::Psql, Some("CREATE DATABASE \"app_db\";"), None, None)
    );
}

#[test]
fn dump_writes_the_file_after_its_directory_is_there() {
    let config = server();
    let manager = PostgresManager::new(&config);
    assert_eq!(
        manager.dump_database("app_db", "/tmp/dumps/app_db.sql"),
        DumpPlan {
            directory: Some("/tmp/dumps".to_string()),
            invocation: call(Tool::PgDump, None, Some("/tmp/dumps/app_db.sql"), Some("app_db")),
        }
    );
    assert_eq!(manager.dump_database("app_db", "app_db.sql").directory, Some(String::new()));
    assert_eq!(manager.dump_database("app_db", "a/b/").directory, Some("a".to_string()));
    assert_eq!(manager.dump_database("app_db", "/").directory, None);
}

#[test]
fn restore_replays_the_file_into_the_database() {
    let config = server();
    let manager = PostgresManager::new(&config);
    assert_eq!(
        manager.restore_database("app_db", "/tmp/dumps/app_db.sql"),
        call(Tool::Psql, None, Some("/tmp/dumps/app_db.sql"), Some("app_db"))
    );
}

#[test]
fn list_databases_reads_the_listing() {
    let config = server();
    let manager = PostgresManager::new(&config);
    let listing = "   Name   | Owner\n----------+------\n app_db   | x\n postgres | x\n(2 rows)\n";
    assert_eq!(manager.list_databases(listing), vec!["app_db".to_string()]);
}

#[test]
fn a_message_goes_out_under_the_sender_name() {
    let client = WebhookClient::new("https://example.test/hook");
    assert_eq!(
        client.send_message("Dumping 2 databases!"),
        WebhookCall {
            url: "https://example.test/hook".to_string(),
            username: "PSQL BACKUPER".to_string(),
            event: NotificationEvent::TextMessage { content: "Dumping 2 databases!".to_string() },
        }
    );
}

#[test]
fn a_file_goes_out_under_its_file_name() {
    let client = WebhookClient::new("https://example.test/hook");
    assert_eq!(
        client.send_file("/tmp/dumps/app_db.sql"),
        Ok(WebhookCall {
            url: "https://example.test/hook".to_string(),
            username: "PSQL BACKUPER".to_string(),
            event: NotificationEvent::FileUpload {
                path: "/tmp/dumps/app_db.sql".to_string(),
                display_name: "app_db.sql".to_string(),
            },
        })
    );
}

#[test]
fn a_directory_goes_out_under_its_own_name() {
    let client = WebhookClient::new("https://example.test/hook");
    assert_eq!(
        client.send_file("/tmp/dumps/"),
        Ok(WebhookCall {
            url: "https://example.test/hook".to_string(),
            username: "PSQL BACKUPER".to_string(),
            event: NotificationEvent::FileUpload {
                path: "/tmp/dumps/".to_string(),
                display_name: "dumps".to_string(),
            },
        })
    );
}

#[test]
fn a_path_without_file_name_cannot_be_sent() {
    let client = WebhookClient::new("https://example.test/hook");
    for path in ["", "/", ".", "..", "dumps/..", "/tmp/dumps/../", "/.."] {
        assert_eq!(client.send_file(path), Err(NotificationError::InvalidFileName), "{:?}", path);
    }
    assert_eq!(NotificationError::InvalidFileName.message(), "Invalid file name");
}

#[test]
fn send_file_names_the_file_as_std_paths_do() {
    let client = WebhookClient::new("https://example.test/hook");
    for path in ["..", "dumps/..", "/tmp/dumps/", "a/b.sql", "", "/", "a/.", "./x", "x/./"] {
        let expected = std::path::Path::new(path).file_name().and_then(|name| name.to_str());
        let given = client.send_file(path);
        match (&given, expected) {
            (Ok(call), Some(name)) => assert_eq!(
                call.event,
                NotificationEvent::FileUpload {
                    path: path.to_string(),
                    display_name: name.to_string(),
                }
            ),
            (Err(NotificationError::InvalidFileName), None) => {}
            _ => panic!("{:?}: {:?} against {:?}", path, given, expected),
        }
    }
}
