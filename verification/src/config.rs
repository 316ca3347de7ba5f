//! The settings of one run, and how they follow from the process environment.

use crate::paths::{join, joined};
use crate::text::{
    copy_of, is_blank, parse_unsigned, text_eq, text_is_blank, unsigned_value,
};
use vstd::prelude::*;
use vstd::string::*;

verus! {

/// The port of a server that is given none.
pub const DEFAULT_PORT: u16 = 5432;

/// The host of a server that is given none: `localhost`.
pub open spec fn default_host() -> Seq<char> {
    seq!['l', 'o', 'c', 'a', 'l', 'h', 'o', 's', 't']
}

/// The user of a server that is given none: `postgres`.
pub open spec fn default_username() -> Seq<char> {
    seq!['p', 'o', 's', 't', 'g', 'r', 'e', 's']
}

/// The directory, under the working directory, that holds the dumps where no
/// other is given: `dumps`.
pub open spec fn default_directory() -> Seq<char> {
    seq!['d', 'u', 'm', 'p', 's']
}

/// The value that switches restore mode on: `true`.
pub open spec fn restore_switch() -> Seq<char> {
    seq!['t', 'r', 'u', 'e']
}

/// The command-line argument that asks for restore mode: `restore`.
pub open spec fn restore_argument() -> Seq<char> {
    seq!['r', 'e', 's', 't', 'o', 'r', 'e']
}

/// How to reach the database server.
#[derive(Debug, Clone, PartialEq, Eq)]
pub struct DatabaseConfig {
    pub host: String,
    pub port: u16,
    pub username: String,
    pub password: Option<String>,
}

pub ghost struct DatabaseConfigView {
    pub host: Seq<char>,
    pub port: u16,
    pub username: Seq<char>,
    pub password: Option<Seq<char>>,
}

impl View for DatabaseConfig {
    type V = DatabaseConfigView;

    open spec fn view(&self) -> DatabaseConfigView {
        DatabaseConfigView {
            host: self.host@,
            port: self.port,
            username: self.username@,
            password: self.password.deep_view(),
        }
    }
}

/// The settings of one run.
#[derive(Debug, Clone, PartialEq, Eq)]
pub struct AppConfig {
    pub db: DatabaseConfig,
    /// Seconds between two backup passes; a single pass where there is none.
    pub interval: Option<u64>,
    pub restore: bool,
    pub save_path: String,
    pub restore_path: String,
    pub webhook_url: Option<String>,
}

pub ghost struct AppConfigView {
    pub db: DatabaseConfigView,
    pub interval: Option<u64>,
    pub restore: bool,
    pub save_path: Seq<char>,
    pub restore_path: Seq<char>,
    pub webhook_url: Option<Seq<char>>,
}

impl View for AppConfig {
    type V = AppConfigView;

    open spec fn view(&self) -> AppConfigView {
        AppConfigView {
            db: self.db@,
            interval: self.interval,
            restore: self.restore,
            save_path: self.save_path@,
            restore_path: self.restore_path@,
            webhook_url: self.webhook_url.deep_view(),
        }
    }
}

/// What the process found around it: the variables that the settings come
/// from, each as it was set or not, the command line, and the working
/// directory.
#[derive(Debug, Clone, PartialEq, Eq, Default)]
pub struct Environment {
    pub host: Option<String>,
    pub port: Option<String>,
    pub username: Option<String>,
    pub password: Option<String>,
    pub save_path: Option<String>,
    pub restore_path: Option<String>,
    pub interval: Option<String>,
    pub restore: Option<String>,
    pub webhook_url: Option<String>,
    pub args: Vec<String>,
    pub current_dir: String,
}

pub ghost struct EnvironmentView {
    pub host: Option<Seq<char>>,
    pub port: Option<Seq<char>>,
    pub username: Option<Seq<char>>,
    pub password: Option<Seq<char>>,
    pub save_path: Option<Seq<char>>,
    pub restore_path: Option<Seq<char>>,
    pub interval: Option<Seq<char>>,
    pub restore: Option<Seq<char>>,
    pub webhook_url: Option<Seq<char>>,
    pub args: Seq<Seq<char>>,
    pub current_dir: Seq<char>,
}

impl View for Environment {
    type V = EnvironmentView;

    open spec fn view(&self) -> EnvironmentView {
        EnvironmentView {
            host: self.host.deep_view(),
            port: self.port.deep_view(),
            username: self.username.deep_view(),
            password: self.password.deep_view(),
            save_path: self.save_path.deep_view(),
            restore_path: self.restore_path.deep_view(),
            interval: self.interval.deep_view(),
            restore: self.restore.deep_view(),
            webhook_url: self.webhook_url.deep_view(),
            args: self.args.deep_view(),
            current_dir: self.current_dir@,
        }
    }
}

/// The port that the setting `port` stands for: its value where it is a
/// number that a port can be, the default otherwise.
pub open spec fn configured_port(port: Option<Seq<char>>) -> u16 {
    match port {
        Some(text) => match unsigned_value(text, u16::MAX as nat) {
            Some(n) => n as u16,
            None => DEFAULT_PORT,
        },
        None => DEFAULT_PORT,
    }
}

/// The interval that the setting `interval` stands for: its value in
/// seconds where it is a number, none otherwise.
pub open spec fn configured_interval(interval: Option<Seq<char>>) -> Option<u64> {
    match interval {
        Some(text) => match unsigned_value(text, u64::MAX as nat) {
            Some(n) => Some(n as u64),
            None => None,
        },
        None => None,
    }
}

/// The directory that the setting `path` stands for: itself, or `dumps`
/// under the working directory where it is not set.
pub open spec fn configured_directory(path: Option<Seq<char>>, current_dir: Seq<char>) -> Seq<
    char,
> {
    match path {
        Some(p) => p,
        None => joined(current_dir, default_directory()),
    }
}

/// Whether the environment asks for restore mode: the switch is set to
/// `true`, or `restore` stands on the command line.
pub open spec fn configured_restore(restore: Option<Seq<char>>, args: Seq<Seq<char>>) -> bool {
    restore == Some(restore_switch()) || args.contains(restore_argument())
}

/// The webhook that the setting `url` stands for: none where it is not set
/// or blank.
pub open spec fn configured_webhook(url: Option<Seq<char>>) -> Option<Seq<char>> {
    match url {
        Some(u) if !is_blank(u) => Some(u),
        _ => None,
    }
}

/// The settings that follow from the environment `env`.
pub open spec fn configured(env: EnvironmentView) -> AppConfigView {
    AppConfigView {
        db: DatabaseConfigView {
            host: match env.host {
                Some(h) => h,
                None => default_host(),
            },
            port: configured_port(env.port),
            username: match env.username {
                Some(u) => u,
                None => default_username(),
            },
            password: env.password,
        },
        interval: configured_interval(env.interval),
        restore: configured_restore(env.restore, env.args),
        save_path: configured_directory(env.save_path, env.current_dir),
        restore_path: configured_directory(env.restore_path, env.current_dir),
        webhook_url: configured_webhook(env.webhook_url),
    }
}

fn text_or(value: &Option<String>, default: &str) -> (r: String)
    ensures
        r@ == match value.deep_view() {
            Some(v) => v,
            None => default@,
        },
{
    match value {
        Some(v) => v.clone(),
        None => default.to_owned(),
    }
}

fn directory_or_default(path: &Option<String>, current_dir: &str) -> (r: String)
    ensures
        r@ == configured_directory(path.deep_view(), current_dir@),
{
    match path {
        Some(p) => p.clone(),
        None => {
            proof {
                reveal_strlit("dumps");
            }
            assert("dumps"@ =~= default_directory());
            join(current_dir, "dumps")
        },
    }
}

fn port_of(port: &Option<String>) -> (r: u16)
    ensures
        r == configured_port(port.deep_view()),
{
    match port {
        Some(text) => match parse_unsigned(text.as_str(), 65535) {
            Some(n) => n as u16,
            None => DEFAULT_PORT,
        },
        None => DEFAULT_PORT,
    }
}

fn interval_of(interval: &Option<String>) -> (r: Option<u64>)
    ensures
        r == configured_interval(interval.deep_view()),
{
    match interval {
        Some(text) => parse_unsigned(text.as_str(), u64::MAX),
        None => None,
    }
}

fn asks_for_restore(restore: &Option<String>, args: &Vec<String>) -> (r: bool)
    ensures
        r == configured_restore(restore.deep_view(), args.deep_view()),
{
    proof {
        reveal_strlit("true");
        reveal_strlit("restore");
    }
    assert("true"@ =~= restore_switch());
    assert("restore"@ =~= restore_argument());
    let switched: bool = match restore {
        Some(text) => text_eq(text.as_str(), "true"),
        None => false,
    };
    if switched {
        return true;
    }
    let mut i: usize = 0;
    while i < args.len()
        invariant
            i <= args.len(),
            "restore"@ == restore_argument(),
            forall|j: int| 0 <= j < i ==> args.deep_view()[j] != restore_argument(),
        decreases args.len() - i,
    {
        assert(args.deep_view()[i as int] == args[i as int]@);
        if text_eq(args[i].as_str(), "restore") {
            return true;
        }
        i = i + 1;
    }
    false
}

fn webhook_of(url: &Option<String>) -> (r: Option<String>)
    ensures
        r.deep_view() == configured_webhook(url.deep_view()),
{
    match url {
        Some(u) => if text_is_blank(u.as_str()) {
            None
        } else {
            Some(u.clone())
        },
        None => None,
    }
}

impl AppConfig {
    /// The settings that follow from what the process found around it.
    ///
    /// A port that is no number falls back to the default, as a missing one
    /// does; an interval that is no number counts as none; a blank webhook
    /// address counts as none.
    pub fn from_env(env: &Environment) -> (config: AppConfig)
        ensures
            config@ == configured(env@),
    {
        proof {
            reveal_strlit("localhost");
            reveal_strlit("postgres");
        }
        assert("localhost"@ =~= default_host());
        assert("postgres"@ =~= default_username());
        let db = DatabaseConfig {
            host: text_or(&env.host, "localhost"),
            port: port_of(&env.port),
            username: text_or(&env.username, "postgres"),
            password: copy_of(&env.password),
        };
        AppConfig {
            db,
            interval: interval_of(&env.interval),
            restore: asks_for_restore(&env.restore, &env.args),
            save_path: directory_or_default(&env.save_path, env.current_dir.as_str()),
            restore_path: directory_or_default(&env.restore_path, env.current_dir.as_str()),
            webhook_url: webhook_of(&env.webhook_url),
        }
    }
}

} // verus!
