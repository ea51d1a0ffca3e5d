//! The command line of the engine.

use vstd::prelude::*;
use crate::util::text::str_eq;

verus! {

/// What the `migration` command is asked to do.
#[derive(Debug, Clone, Copy, PartialEq, Eq, Structural)]
pub enum MigrationCommand {
    Init,
    Backup,
    Restore,
}

/// A command given on the command line.
#[derive(Debug, Clone, Copy, PartialEq, Eq, Structural)]
pub enum CliCommand {
    Migration(MigrationCommand),
}

/// The command that a full argument list (program name first) asks for:
/// `<program> --cli migration (init|backup|restore) ...`; anything else asks
/// for none.
pub open spec fn spec_cli_command(args: Seq<Seq<char>>) -> Option<CliCommand> {
    if args.len() >= 4 && args[1] == "--cli"@ && args[2] == "migration"@ {
        if args[3] == "init"@ {
            Some(CliCommand::Migration(MigrationCommand::Init))
        } else if args[3] == "backup"@ {
            Some(CliCommand::Migration(MigrationCommand::Backup))
        } else if args[3] == "restore"@ {
            Some(CliCommand::Migration(MigrationCommand::Restore))
        } else {
            None
        }
    } else {
        None
    }
}

/// The arguments' texts.
pub open spec fn args_view(args: Seq<String>) -> Seq<Seq<char>> {
    args.map_values(|s: String| s@)
}

/// Reads the command from the program's argument list, the program's own
/// name first, as `std::env::args` gives it.
pub fn parse_cli_command(args: &Vec<String>) -> (r: Option<CliCommand>)
    ensures
        r == spec_cli_command(args_view(args@)),
{
    let ghost a = args_view(args@);
    if args.len() < 2 || !str_eq(args[1].as_str(), "--cli") {
        return None;
    }
    if args.len() < 3 || !str_eq(args[2].as_str(), "migration") {
        return None;
    }
    if args.len() < 4 {
        return None;
    }
    let cmd = args[3].as_str();
    if str_eq(cmd, "init") {
        Some(CliCommand::Migration(MigrationCommand::Init))
    } else if str_eq(cmd, "backup") {
        Some(CliCommand::Migration(MigrationCommand::Backup))
    } else if str_eq(cmd, "restore") {
        Some(CliCommand::Migration(MigrationCommand::Restore))
    } else {
        None
    }
}

} // verus!
