//! The calls of the PostgreSQL command-line tools that a run is made of.
//!
//! Nothing here starts a process: each function says which tool is to be
//! run and with what, and the caller runs it.

use crate::catalog::{database_names, is_database_name, parse_database_list};
use crate::config::{DatabaseConfig, DatabaseConfigView};
use crate::paths::{parent_directory, parent_of};
use crate::text::copy_of;
use vstd::prelude::*;
use vstd::string::*;

verus! {

/// A command-line tool of PostgreSQL.
#[derive(Debug, Clone, Copy, PartialEq, Eq, Structural)]
pub enum Tool {
    /// The interactive terminal: runs a command or replays a file.
    Psql,
    /// Writes a database out to a file.
    PgDump,
}

/// One call of a tool: the server and credentials to use, the database it
/// is bound to, and what it is to do.
#[derive(Debug, Clone, PartialEq, Eq)]
pub struct Invocation {
    pub tool: Tool,
    /// The command to execute, for a call that executes one.
    pub command: Option<String>,
    /// The file to replay (`Psql`) or to write (`PgDump`).
    pub file: Option<String>,
    pub dbname: Option<String>,
    pub host: String,
    pub port: u16,
    pub username: String,
    pub password: Option<String>,
}

pub ghost struct InvocationView {
    pub tool: Tool,
    pub command: Option<Seq<char>>,
    pub file: Option<Seq<char>>,
    pub dbname: Option<Seq<char>>,
    pub host: Seq<char>,
    pub port: u16,
    pub username: Seq<char>,
    pub password: Option<Seq<char>>,
}

impl View for Invocation {
    type V = InvocationView;

    open spec fn view(&self) -> InvocationView {
        InvocationView {
            tool: self.tool,
            command: self.command.deep_view(),
            file: self.file.deep_view(),
            dbname: self.dbname.deep_view(),
            host: self.host@,
            port: self.port,
            username: self.username@,
            password: self.password.deep_view(),
        }
    }
}

/// What dumping one database takes: the directory to make sure of first,
/// where the output path lies in one, and the call of the dump tool.
#[derive(Debug, Clone, PartialEq, Eq)]
pub struct DumpPlan {
    pub directory: Option<String>,
    pub invocation: Invocation,
}

pub ghost struct DumpPlanView {
    pub directory: Option<Seq<char>>,
    pub invocation: InvocationView,
}

impl View for DumpPlan {
    type V = DumpPlanView;

    open spec fn view(&self) -> DumpPlanView {
        DumpPlanView { directory: self.directory.deep_view(), invocation: self.invocation@ }
    }
}

/// The command that makes the server list its databases.
pub open spec fn list_statement() -> Seq<char> {
    "\\l"@
}

/// The statement that creates the database `db_name`:
/// `CREATE DATABASE "<db_name>";`.
pub open spec fn create_statement(db_name: Seq<char>) -> Seq<char> {
    "CREATE DATABASE \""@ + db_name + "\";"@
}

/// The call of `tool` on the server of `config`.
pub open spec fn call_on(
    config: DatabaseConfigView,
    tool: Tool,
    command: Option<Seq<char>>,
    file: Option<Seq<char>>,
    dbname: Option<Seq<char>>,
) -> InvocationView {
    InvocationView {
        tool,
        command,
        file,
        dbname,
        host: config.host,
        port: config.port,
        username: config.username,
        password: config.password,
    }
}

/// The call that executes `command`, bound to `db_name` where one is given.
pub open spec fn psql_command(
    config: DatabaseConfigView,
    command: Seq<char>,
    db_name: Option<Seq<char>>,
) -> InvocationView {
    call_on(config, Tool::Psql, Some(command), None, db_name)
}

/// The call that lists the databases: bound to no database.
pub open spec fn list_call(config: DatabaseConfigView) -> InvocationView {
    psql_command(config, list_statement(), None)
}

/// The call that creates `db_name`: bound to no database.
pub open spec fn create_call(config: DatabaseConfigView, db_name: Seq<char>) -> InvocationView {
    psql_command(config, create_statement(db_name), None)
}

/// The call that writes `db_name` out to `output_path`.
pub open spec fn dump_call(
    config: DatabaseConfigView,
    db_name: Seq<char>,
    output_path: Seq<char>,
) -> InvocationView {
    call_on(config, Tool::PgDump, None, Some(output_path), Some(db_name))
}

/// The call that replays `dump_path` into `db_name`.
pub open spec fn restore_call(
    config: DatabaseConfigView,
    db_name: Seq<char>,
    dump_path: Seq<char>,
) -> InvocationView {
    call_on(config, Tool::Psql, None, Some(dump_path), Some(db_name))
}

/// What dumping `db_name` to `output_path` takes.
pub open spec fn dump_plan(
    config: DatabaseConfigView,
    db_name: Seq<char>,
    output_path: Seq<char>,
) -> DumpPlanView {
    DumpPlanView {
        directory: parent_directory(output_path),
        invocation: dump_call(config, db_name, output_path),
    }
}

/// Plans the tool calls against one server.
pub struct PostgresManager<'a> {
    config: &'a DatabaseConfig,
}

impl<'a> PostgresManager<'a> {
    /// The server that the calls go to.
    pub closed spec fn server(&self) -> DatabaseConfigView {
        self.config@
    }

    /// A planner of calls to the server of `config`.
    pub fn new(config: &'a DatabaseConfig) -> (manager: Self)
        ensures
            manager.server() == config@,
    {
        Self { config }
    }

    fn call(
        &self,
        tool: Tool,
        command: Option<String>,
        file: Option<String>,
        dbname: Option<String>,
    ) -> (invocation: Invocation)
        ensures
            invocation@ == call_on(
                self.server(),
                tool,
                command.deep_view(),
                file.deep_view(),
                dbname.deep_view(),
            ),
    {
        Invocation {
            tool,
            command,
            file,
            dbname,
            host: self.config.host.clone(),
            port: self.config.port,
            username: self.config.username.clone(),
            password: copy_of(&self.config.password),
        }
    }

    /// The call that executes `command` on the server, bound to `db_name`
    /// where one is given.
    pub fn execute_psql_command(&self, command: &str, db_name: Option<&str>) -> (invocation:
        Invocation)
        ensures
            invocation@ == psql_command(self.server(), command@, db_name.deep_view()),
    {
        let dbname: Option<String> = match db_name {
            Some(db) => Some(db.to_owned()),
            None => None,
        };
        self.call(Tool::Psql, Some(command.to_owned()), None, dbname)
    }

    /// The call that makes the server list its databases.
    pub fn list_databases_command(&self) -> (invocation: Invocation)
        ensures
            invocation@ == list_call(self.server()),
    {
        self.execute_psql_command("\\l", None)
    }

    /// The databases to back up, read from what the server printed in
    /// answer to the listing call: the names in its rows, in their order,
    /// without the reserved ones.
    pub fn list_databases(&self, listing: &str) -> (databases: Vec<String>)
        ensures
            databases.deep_view() == database_names(listing@),
            forall|i: int| 0 <= i < databases.len() ==> is_database_name(#[trigger] databases[i]@),
    {
        parse_database_list(listing)
    }

    /// The call that creates the database `db_name`.
    pub fn create_database(&self, db_name: &str) -> (invocation: Invocation)
        ensures
            invocation@ == create_call(self.server(), db_name@),
    {
        let statement: String = "CREATE DATABASE \"".to_owned().concat(db_name).concat("\";");
        self.execute_psql_command(statement.as_str(), None)
    }

    /// What dumping `db_name` to `output_path` takes: the directory that
    /// holds `output_path` is to exist before the dump tool runs.
    pub fn dump_database(&self, db_name: &str, output_path: &str) -> (plan: DumpPlan)
        ensures
            plan@ == dump_plan(self.server(), db_name@, output_path@),
    {
        let directory = parent_of(output_path);
        let invocation = self.call(
            Tool::PgDump,
            None,
            Some(output_path.to_owned()),
            Some(db_name.to_owned()),
        );
        DumpPlan { directory, invocation }
    }

    /// The call that replays the dump file `dump_path` into `db_name`.
    pub fn restore_database(&self, db_name: &str, dump_path: &str) -> (invocation: Invocation)
        ensures
            invocation@ == restore_call(self.server(), db_name@, dump_path@),
    {
        self.call(Tool::Psql, None, Some(dump_path.to_owned()), Some(db_name.to_owned()))
    }
}

} // verus!
