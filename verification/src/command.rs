//! The lifecycle commands that can be given to a deployed release.

use crate::text::{lowercase, same_text, to_lowercase};
use vstd::prelude::*;

verus! {

/// A lifecycle command.
#[derive(Debug, Clone, Copy, PartialEq, Eq, Structural)]
pub enum Command {
    /// Start the release and follow its log for a moment.
    Up,
    /// Stop the release's containers.
    Stop,
    /// Stop and remove the release's containers.
    Down,
    /// Show the release's log.
    Logs,
    /// Shut down the release that was started last, then start this one.
    DownAndUp,
}

/// The command that the word `s` names, whatever case it is written in.
pub open spec fn parse_command(s: Seq<char>) -> Option<Command> {
    let l = lowercase(s);
    if l == "start"@ || l == "up"@ {
        Some(Command::Up)
    } else if l == "stop"@ {
        Some(Command::Stop)
    } else if l == "down"@ {
        Some(Command::Down)
    } else if l == "log"@ || l == "logs"@ {
        Some(Command::Logs)
    } else if l == "down_up"@ || l == "restart"@ {
        Some(Command::DownAndUp)
    } else {
        None
    }
}

/// The name under which a command is recorded.
pub open spec fn command_name(c: Command) -> Seq<char> {
    match c {
        Command::Up => "up"@,
        Command::Stop => "stop"@,
        Command::Down => "down"@,
        Command::Logs => "logs"@,
        Command::DownAndUp => "down_up"@,
    }
}

/// The shell text that carries a command out inside a release's directory.
/// The handover starts the release as `Up` does.
pub open spec fn command_text(c: Command) -> Seq<char> {
    match c {
        Command::Up | Command::DownAndUp => {
            "docker-compose up -d --build && (timeout 10 docker-compose logs -f || true)"@
        },
        Command::Stop => "docker-compose stop"@,
        Command::Down => "docker-compose down"@,
        Command::Logs => "docker-compose logs"@,
    }
}

impl Command {
    /// Reads a command from one of its names.
    pub fn parse_str(s: &str) -> (r: Result<Command, ()>)
        ensures
            r is Ok == parse_command(s@) is Some,
            r matches Ok(c) ==> Some(c) == parse_command(s@),
    {
        let lower = to_lowercase(s);
        let l = lower.as_str();
        if same_text(l, "start") || same_text(l, "up") {
            Ok(Command::Up)
        } else if same_text(l, "stop") {
            Ok(Command::Stop)
        } else if same_text(l, "down") {
            Ok(Command::Down)
        } else if same_text(l, "log") || same_text(l, "logs") {
            Ok(Command::Logs)
        } else if same_text(l, "down_up") || same_text(l, "restart") {
            Ok(Command::DownAndUp)
        } else {
            Err(())
        }
    }

    /// The name under which the command is recorded.
    pub fn as_str(&self) -> (r: &'static str)
        ensures
            r@ == command_name(*self),
    {
        match self {
            Command::Up => "up",
            Command::Stop => "stop",
            Command::Down => "down",
            Command::Logs => "logs",
            Command::DownAndUp => "down_up",
        }
    }

    /// The shell text that carries the command out.
    pub fn get_command_str(&self) -> (r: &'static str)
        ensures
            r@ == command_text(*self),
    {
        match self {
            Command::Up | Command::DownAndUp => {
                "docker-compose up -d --build && (timeout 10 docker-compose logs -f || true)"
            },
            Command::Stop => "docker-compose stop",
            Command::Down => "docker-compose down",
            Command::Logs => "docker-compose logs",
        }
    }
}

} // verus!
