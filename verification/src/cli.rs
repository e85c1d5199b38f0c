//! What the program can be asked to do on the command line.

use vstd::prelude::*;
use crate::service::ServiceCommand;

verus! {

/// The parsed command line.
#[derive(Debug, PartialEq, Eq)]
pub struct Cli {
    /// The subcommand, if one was given.
    pub command: Option<Command>,
}

/// The subcommands.
#[derive(Debug, PartialEq, Eq)]
pub enum Command {
    /// Reconcile once: the record named `name`, or all records.
    Update { name: Option<String> },
    /// Manage or run the background service.
    Service(ServiceCommand),
}

/// A command over character sequences.
pub enum CommandView {
    Update { name: Option<Seq<char>> },
    Service(ServiceCommand),
}

impl View for Command {
    type V = CommandView;

    open spec fn view(&self) -> CommandView {
        match self {
            Command::Update { name } => CommandView::Update { name: name.deep_view() },
            Command::Service(command) => CommandView::Service(*command),
        }
    }
}

impl Clone for Command {
    fn clone(&self) -> (res: Command)
        ensures
            res@ == self@,
    {
        match self {
            Command::Update { name } => Command::Update {
                name: match name {
                    Some(name) => Some(name.clone()),
                    None => None,
                },
            },
            Command::Service(command) => Command::Service(*command),
        }
    }
}

/// What a command line without a subcommand stands for: reconcile all
/// records once.
pub open spec fn default_command() -> CommandView {
    CommandView::Update { name: None }
}

impl Cli {
    /// The command to carry out: the subcommand given, or one update of all
    /// records where none was given.
    pub fn run(&self) -> (command: Command)
        ensures
            command@ == match self.command {
                Some(given) => given@,
                None => default_command(),
            },
    {
        match &self.command {
            Some(given) => given.clone(),
            None => Command::Update { name: None },
        }
    }
}

} // verus!
