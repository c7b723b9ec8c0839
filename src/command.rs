//! The in-band commands that a user types at either prompt.
use vstd::prelude::*;
use crate::config::{Config, Flag};

verus! {

/// The lines printed for `:h` and `:?`.
pub const HELP: &'static str = ":t - Toggle compile time display
:g - Toggle capture groups display
:v - Toggle verbose errors
:h - Print this menu
:q - Quit";

/// A command typed on a line of its own.
#[derive(Clone, Copy, Debug, PartialEq, Eq, Structural)]
pub enum Command {
    /// `:q`
    Quit,
    /// `:v`
    ToggleVerboseErrors,
    /// `:t`
    ToggleCompileTime,
    /// `:b`
    Back,
    /// `:g`
    ToggleCaptureGroups,
    /// `:h` or `:?`
    Help,
}

/// What the prompt does after a line has been offered to the menu.
#[derive(Clone, Copy, Debug, PartialEq, Eq, Structural)]
pub enum Action {
    /// The line is no command: treat it as a pattern or as test input.
    Continue,
    /// The line was a command that has been handled: read the next line.
    Loop,
    /// Go back to the prompt that asks for a pattern.
    ToRegexPrompt,
    /// Leave the program.
    Exit,
}

/// The command that a whole line spells, if any.
pub open spec fn command_of(s: Seq<char>) -> Option<Command> {
    if s == seq![':', 'q'] {
        Some(Command::Quit)
    } else if s == seq![':', 'v'] {
        Some(Command::ToggleVerboseErrors)
    } else if s == seq![':', 't'] {
        Some(Command::ToggleCompileTime)
    } else if s == seq![':', 'b'] {
        Some(Command::Back)
    } else if s == seq![':', 'g'] {
        Some(Command::ToggleCaptureGroups)
    } else if s == seq![':', 'h'] || s == seq![':', '?'] {
        Some(Command::Help)
    } else {
        None
    }
}

/// The flag that a command flips, if it flips one.
pub open spec fn toggled_flag(c: Command) -> Option<Flag> {
    match c {
        Command::ToggleVerboseErrors => Some(Flag::VerboseErrors),
        Command::ToggleCompileTime => Some(Flag::CompileTime),
        Command::ToggleCaptureGroups => Some(Flag::CaptureGroups),
        _ => None,
    }
}

/// What the prompt does after a line that spells `c` (or no command).
pub open spec fn action_of(c: Option<Command>) -> Action {
    match c {
        None => Action::Continue,
        Some(Command::Quit) => Action::Exit,
        Some(Command::Back) => Action::ToRegexPrompt,
        Some(_) => Action::Loop,
    }
}

/// How a command changes the options: a toggle flips its flag and keeps the
/// others, any other command keeps them all.
pub open spec fn applied(c: Command, before: Config, after: Config) -> bool {
    &&& match toggled_flag(c) {
        Some(f) => after.has(f) == !before.has(f) && after.same_except(before, f),
        None => after == before,
    }
}

/// The note shown after `c` has been applied, giving `cfg`.
pub open spec fn message_of(c: Command, cfg: Config) -> Option<Seq<char>> {
    match c {
        Command::ToggleVerboseErrors => Some(
            if cfg.has(Flag::VerboseErrors) {
                "Verbose errors: on"@
            } else {
                "Verbose errors: off"@
            },
        ),
        Command::ToggleCompileTime => Some(
            if cfg.has(Flag::CompileTime) {
                "Show compile time: on"@
            } else {
                "Show compile time: off"@
            },
        ),
        Command::ToggleCaptureGroups => Some(
            if cfg.has(Flag::CaptureGroups) {
                "Show capture groups: on"@
            } else {
                "Show capture groups: off"@
            },
        ),
        Command::Help => Some(HELP@),
        _ => None,
    }
}

/// Reads a line as a command: the whole line must be one of `:q`, `:v`,
/// `:t`, `:b`, `:g`, `:h` or `:?`.
pub fn parse_command(line: &str) -> (r: Option<Command>)
    ensures
        r == command_of(line@),
{
    if line.unicode_len() != 2 {
        return None;
    }
    if line.get_char(0) != ':' {
        return None;
    }
    let c = line.get_char(1);
    assert(line@ =~= seq![':', c]);
    match c {
        'q' => Some(Command::Quit),
        'v' => Some(Command::ToggleVerboseErrors),
        't' => Some(Command::ToggleCompileTime),
        'b' => Some(Command::Back),
        'g' => Some(Command::ToggleCaptureGroups),
        'h' | '?' => Some(Command::Help),
        _ => None,
    }
}

/// Carries out a command on the options and says what the prompt does next.
pub fn apply_command(c: Command, config: &mut Config) -> (r: Action)
    ensures
        applied(c, *old(config), *final(config)),
        r == action_of(Some(c)),
{
    match c {
        Command::Quit => Action::Exit,
        Command::ToggleVerboseErrors => {
            config.toggle(Flag::VerboseErrors);
            Action::Loop
        },
        Command::ToggleCompileTime => {
            config.toggle(Flag::CompileTime);
            Action::Loop
        },
        Command::Back => Action::ToRegexPrompt,
        Command::ToggleCaptureGroups => {
            config.toggle(Flag::CaptureGroups);
            Action::Loop
        },
        Command::Help => Action::Loop,
    }
}

/// The note to show once `c` has been applied and the options are `config`.
pub fn command_message(c: Command, config: &Config) -> (r: Option<&'static str>)
    ensures
        match r {
            Some(m) => message_of(c, *config) == Some(m@),
            None => message_of(c, *config).is_none(),
        },
{
    match c {
        Command::ToggleVerboseErrors => Some(
            if config.contains(Flag::VerboseErrors) {
                "Verbose errors: on"
            } else {
                "Verbose errors: off"
            },
        ),
        Command::ToggleCompileTime => Some(
            if config.contains(Flag::CompileTime) {
                "Show compile time: on"
            } else {
                "Show compile time: off"
            },
        ),
        Command::ToggleCaptureGroups => Some(
            if config.contains(Flag::CaptureGroups) {
                "Show capture groups: on"
            } else {
                "Show capture groups: off"
            },
        ),
        Command::Help => Some(HELP),
        _ => None,
    }
}

/// Offers a line to the menu: a command is carried out on the options, and
/// the result says what the prompt does next.
pub fn options_menu(line: &str, config: &mut Config) -> (r: Action)
    ensures
        r == action_of(command_of(line@)),
        match command_of(line@) {
            Some(c) => applied(c, *old(config), *final(config)),
            None => *final(config) == *old(config),
        },
{
    match parse_command(line) {
        Some(c) => apply_command(c, config),
        None => Action::Continue,
    }
}

} // verus!
