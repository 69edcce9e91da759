//! The command line as plain values: what the user asked for.

use vstd::prelude::*;
use crate::commands::auth::AuthArgs;
use crate::commands::collections::CollectionsArgs;
use crate::commands::config::ConfigArgs;
use crate::commands::query::QueryArgs;
use crate::commands::schema::SchemaArgs;
use crate::commands::sources::SourcesArgs;
use crate::commands::sql::SqlArgs;
use crate::commands::teams::TeamsArgs;

verus! {

/// One invocation: the command, if any, and the arguments that every
/// command takes.
#[derive(Debug)]
pub struct Cli {
    pub command: Option<Commands>,
    pub context: Option<String>,
    pub server: Option<String>,
    pub token: Option<String>,
    pub debug: bool,
}

/// The commands.
#[derive(Debug)]
pub enum Commands {
    Auth(AuthArgs),
    Query(QueryArgs),
    Sql(SqlArgs),
    Collections(CollectionsArgs),
    Teams(TeamsArgs),
    Sources(SourcesArgs),
    Schema(SchemaArgs),
    Config(ConfigArgs),
}

/// The arguments that every command takes: which context to use, and a
/// server or a token that override what is stored.
#[derive(Debug)]
pub struct GlobalArgs {
    pub context: Option<String>,
    pub server: Option<String>,
    pub token: Option<String>,
}

/// How much is logged.
#[derive(Debug, Clone, Copy, PartialEq, Eq, Structural)]
pub enum LogFilter {
    /// Everything down to debug messages.
    Debug,
    /// What the environment asks for, and warnings where it asks nothing.
    FromEnvironment,
}

impl Cli {
    /// How much this invocation logs: everything with `--debug`, else what
    /// the environment asks for.
    pub fn log_filter(&self) -> (filter: LogFilter)
        ensures
            filter == (if self.debug {
                LogFilter::Debug
            } else {
                LogFilter::FromEnvironment
            }),
    {
        if self.debug {
            LogFilter::Debug
        } else {
            LogFilter::FromEnvironment
        }
    }

    /// The command, if any, and the arguments that every command takes.
    pub fn split(self) -> (parts: (Option<Commands>, GlobalArgs))
        ensures
            parts.0 == self.command,
            parts.1.context == self.context,
            parts.1.server == self.server,
            parts.1.token == self.token,
    {
        (
            self.command,
            GlobalArgs { context: self.context, server: self.server, token: self.token },
        )
    }
}

} // verus!
