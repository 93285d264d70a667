//! The command registry: which names each shell answers to.
use vstd::prelude::*;

verus! {

/// The two shells that expose commands.
#[derive(PartialEq, Eq, Structural, Clone, Copy, Debug)]
pub enum Shell {
    Browser,
    Studio,
}

/// Every command that some shell exposes.
#[derive(PartialEq, Eq, Structural, Clone, Copy, Debug)]
pub enum Command {
    OpenUrl,
    Ping,
    FsRead,
    FsWrite,
    AgentChat,
}

/// The name under which a command is invoked.
pub open spec fn command_name(c: Command) -> Seq<char> {
    match c {
        Command::OpenUrl => "agent_open_url"@,
        Command::Ping => "agent_ping"@,
        Command::FsRead => "fs_read"@,
        Command::FsWrite => "fs_write"@,
        Command::AgentChat => "agent_chat"@,
    }
}

/// The shell whose registry holds a command.
pub open spec fn shell_of(c: Command) -> Shell {
    match c {
        Command::OpenUrl | Command::Ping => Shell::Browser,
        _ => Shell::Studio,
    }
}

/// No two commands share a name, so an invocation's name picks at most one
/// handler.
pub proof fn lemma_command_names_unique(a: Command, b: Command)
    ensures
        command_name(a) == command_name(b) ==> a == b,
{
    reveal_strlit("agent_open_url");
    reveal_strlit("agent_ping");
    reveal_strlit("fs_read");
    reveal_strlit("fs_write");
    reveal_strlit("agent_chat");
    if command_name(a) == command_name(b) && a != b {
        assert(command_name(a)[6] != command_name(b)[6] || command_name(a).len() != command_name(
            b,
        ).len());
    }
}

/// Whether a string is the name of a command.
fn names(name: &String, c: Command) -> (r: bool)
    ensures
        r == (name@ == command_name(c)),
{
    let literal = match c {
        Command::OpenUrl => "agent_open_url",
        Command::Ping => "agent_ping",
        Command::FsRead => "fs_read",
        Command::FsWrite => "fs_write",
        Command::AgentChat => "agent_chat",
    };
    *name == literal.to_owned()
}

/// The command that `shell` runs for an invocation named `name`, if any.
pub fn command_named(shell: Shell, name: &String) -> (r: Option<Command>)
    ensures
        r matches Some(c) ==> shell_of(c) == shell && command_name(c) == name@,
        r is None ==> forall|c: Command| shell_of(c) == shell ==> command_name(c) != name@,
{
    match shell {
        Shell::Browser => {
            if names(name, Command::OpenUrl) {
                Some(Command::OpenUrl)
            } else if names(name, Command::Ping) {
                Some(Command::Ping)
            } else {
                None
            }
        },
        Shell::Studio => {
            if names(name, Command::FsRead) {
                Some(Command::FsRead)
            } else if names(name, Command::FsWrite) {
                Some(Command::FsWrite)
            } else if names(name, Command::AgentChat) {
                Some(Command::AgentChat)
            } else {
                None
            }
        },
    }
}

} // verus!
