//! Command-group declarations.
//!
//! A group is a named set of user-invocable commands, each routed to one
//! handler function, together with a short summary for the help system. The
//! declarations here are data: the framework that parses user input consumes
//! them at startup, and the handler bodies belong to the surrounding
//! application. Two groups exist: moderation (kick, ban, unban) and utility
//! (welcome, welcome_disable).

use vstd::prelude::*;
use vstd::string::StringExecFns;

verus! {

/// Names one of the command-handler functions a group routes to.
#[derive(Clone, Copy, PartialEq, Eq, Structural, Debug)]
pub enum CommandFn {
    Kick,
    Ban,
    Unban,
    Welcome,
    WelcomeDisable,
}

/// One user-invocable command: the name users type and the handler it
/// routes to.
pub struct CommandEntry {
    pub name: String,
    pub handler: CommandFn,
}

/// A named set of commands sharing a summary, consumed by the command
/// parser's dispatch and help system.
pub struct CommandGroup {
    pub summary: String,
    pub commands: Vec<CommandEntry>,
}

/// The moderation command group.
pub struct Moderation;

/// The utility command group.
pub struct Utility;

impl Moderation {
    /// The moderation declaration: exactly kick, ban and unban, in that
    /// order, each under its own handler, with the declared summary and no
    /// other commands.
    pub fn group() -> (g: CommandGroup)
        ensures
            g.summary@ == "Moderation Commands"@,
            g.commands@.len() == 3,
            g.commands@[0].name@ == "kick"@,
            g.commands@[0].handler == CommandFn::Kick,
            g.commands@[1].name@ == "ban"@,
            g.commands@[1].handler == CommandFn::Ban,
            g.commands@[2].name@ == "unban"@,
            g.commands@[2].handler == CommandFn::Unban,
    {
        let mut commands: Vec<CommandEntry> = Vec::new();
        commands.push(CommandEntry { name: String::from_str("kick"), handler: CommandFn::Kick });
        commands.push(CommandEntry { name: String::from_str("ban"), handler: CommandFn::Ban });
        commands.push(CommandEntry { name: String::from_str("unban"), handler: CommandFn::Unban });
        CommandGroup { summary: String::from_str("Moderation Commands"), commands }
    }
}

impl Utility {
    /// The utility declaration: exactly welcome and welcome_disable, in that
    /// order, each under its own handler, with the declared summary and no
    /// other commands.
    pub fn group() -> (g: CommandGroup)
        ensures
            g.summary@ == "Utility Commands"@,
            g.commands@.len() == 2,
            g.commands@[0].name@ == "welcome"@,
            g.commands@[0].handler == CommandFn::Welcome,
            g.commands@[1].name@ == "welcome_disable"@,
            g.commands@[1].handler == CommandFn::WelcomeDisable,
    {
        let mut commands: Vec<CommandEntry> = Vec::new();
        commands.push(
            CommandEntry { name: String::from_str("welcome"), handler: CommandFn::Welcome },
        );
        commands.push(
            CommandEntry {
                name: String::from_str("welcome_disable"),
                handler: CommandFn::WelcomeDisable,
            },
        );
        CommandGroup { summary: String::from_str("Utility Commands"), commands }
    }
}

} // verus!
