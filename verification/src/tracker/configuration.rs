//! What the tracker is asked to do, read from its command line.

use vstd::prelude::*;
use crate::text::{copy_str, lowercase, str_equal, strings_view, to_lowercase};

verus! {

/// Where the data collector library is looked for when no path is given.
pub const DEFAULT_COLLECTOR_PATH: &'static str =
    "./mtga-datacollector/bin/x64/Release/netstandard2.1/mtga-datacollector.dll";

/// Where the tracker's database is when no path is given.
pub const DEFAULT_DATABASE_PATH: &'static str = "./mtga-tracker.db";

/// The paths the log parser and its window work with.
pub struct ParseParams {
    pub collector_dll_path: String,
    pub database_path: String,
}

/// The inputs and the output of building the card database.
pub struct CreateDatabaseParams {
    pub scryfall_cards_json_path: String,
    pub mtga_cards_json_path: String,
    pub database_output_path: String,
}

/// The inputs and the output of the artist mapping report.
pub struct DumpArtistMappingParams {
    pub scryfall_cards_json_path: String,
    pub mtga_cards_json_path: String,
    pub output_file: String,
}

/// A command of the tracker.
pub enum TrackerCommand {
    CreateDatabase(CreateDatabaseParams),
    Parse(ParseParams),
    DumpArtistMapping(DumpArtistMappingParams),
    Dump(String),
}

/// The view of a command: the same paths, as texts.
pub enum CommandView {
    CreateDatabase { scryfall: Seq<char>, mtga: Seq<char>, database: Seq<char> },
    Parse { collector: Seq<char>, database: Seq<char> },
    DumpArtistMapping { scryfall: Seq<char>, mtga: Seq<char>, output: Seq<char> },
    Dump { collector: Seq<char> },
}

impl View for TrackerCommand {
    type V = CommandView;

    open spec fn view(&self) -> CommandView {
        match self {
            TrackerCommand::CreateDatabase(p) => CommandView::CreateDatabase {
                scryfall: p.scryfall_cards_json_path@,
                mtga: p.mtga_cards_json_path@,
                database: p.database_output_path@,
            },
            TrackerCommand::Parse(p) => CommandView::Parse {
                collector: p.collector_dll_path@,
                database: p.database_path@,
            },
            TrackerCommand::DumpArtistMapping(p) => CommandView::DumpArtistMapping {
                scryfall: p.scryfall_cards_json_path@,
                mtga: p.mtga_cards_json_path@,
                output: p.output_file@,
            },
            TrackerCommand::Dump(p) => CommandView::Dump { collector: p@ },
        }
    }
}

/// The argument at `i`, if there is one.
pub open spec fn arg(args: Seq<Seq<char>>, i: int) -> Option<Seq<char>> {
    if 0 <= i < args.len() {
        Some(args[i])
    } else {
        None
    }
}

/// The command that the arguments (the program's name first) ask for, or the message of the
/// error. With no argument after the name the parser runs with the default paths; else the
/// first argument, lowercase, names the command, and the ones after it give its paths. The
/// artist report takes its output path from the same argument as the MTGA cards path.
pub open spec fn command_for(args: Seq<Seq<char>>) -> Result<CommandView, Seq<char>> {
    if args.len() == 1 {
        Ok(CommandView::Parse { collector: DEFAULT_COLLECTOR_PATH@, database: DEFAULT_DATABASE_PATH@ })
    } else {
        let name = lowercase(args[1]);
        if name == "dump"@ {
            Ok(
                CommandView::Dump {
                    collector: match arg(args, 2) {
                        Some(p) => p,
                        None => DEFAULT_COLLECTOR_PATH@,
                    },
                },
            )
        } else if name == "dumpartists"@ {
            if args.len() <= 2 {
                Err("Please provide a scryfall cards db path"@)
            } else if args.len() <= 3 {
                Err("Please provide an mtga cards db path"@)
            } else {
                Ok(CommandView::DumpArtistMapping { scryfall: args[2], mtga: args[3], output: args[3] })
            }
        } else if name == "createdb"@ {
            if args.len() <= 2 {
                Err("Please provide a scryfall cards db path"@)
            } else if args.len() <= 3 {
                Err("Please provide an mtga cards db path"@)
            } else {
                Ok(
                    CommandView::CreateDatabase {
                        scryfall: args[2],
                        mtga: args[3],
                        database: match arg(args, 4) {
                            Some(p) => p,
                            None => DEFAULT_DATABASE_PATH@,
                        },
                    },
                )
            }
        } else {
            Err("Unrecognized command"@)
        }
    }
}

/// The tracker's configuration: the command it runs.
pub struct Config {
    command: TrackerCommand,
}

/// A copy of the argument at `i`, or of `default` when there is none.
fn arg_or(args: &Vec<String>, i: usize, default: &str) -> (r: String)
    ensures
        r@ == match arg(strings_view(args@), i as int) {
            Some(p) => p,
            None => default@,
        },
{
    if i < args.len() {
        copy_str(args[i].as_str())
    } else {
        copy_str(default)
    }
}

impl Config {
    /// The command the arguments ask for (see `command_for`).
    pub closed spec fn command_view(&self) -> CommandView {
        self.command@
    }

    /// Reads the command line, the program's name first.
    pub fn new(args: &Vec<String>) -> (r: Result<Config, String>)
        requires
            args@.len() >= 1,
        ensures
            match r {
                Ok(c) => command_for(strings_view(args@)) == Ok::<CommandView, Seq<char>>(c.command_view()),
                Err(e) => command_for(strings_view(args@)) == Err::<CommandView, Seq<char>>(e@),
            },
    {
        let ghost av = strings_view(args@);
        proof {
            assert(forall|i: int| 0 <= i < args@.len() ==> av[i] == #[trigger] args@[i]@);
        }
        if args.len() == 1 {
            return Ok(
                Config {
                    command: TrackerCommand::Parse(
                        ParseParams {
                            collector_dll_path: copy_str(DEFAULT_COLLECTOR_PATH),
                            database_path: copy_str(DEFAULT_DATABASE_PATH),
                        },
                    ),
                },
            );
        }
        let name = to_lowercase(args[1].as_str());
        if str_equal(name.as_str(), "dump") {
            Ok(Config { command: TrackerCommand::Dump(arg_or(args, 2, DEFAULT_COLLECTOR_PATH)) })
        } else if str_equal(name.as_str(), "dumpartists") {
            if args.len() <= 2 {
                return Err(copy_str("Please provide a scryfall cards db path"));
            }
            if args.len() <= 3 {
                return Err(copy_str("Please provide an mtga cards db path"));
            }
            Ok(
                Config {
                    command: TrackerCommand::DumpArtistMapping(
                        DumpArtistMappingParams {
                            scryfall_cards_json_path: copy_str(args[2].as_str()),
                            mtga_cards_json_path: copy_str(args[3].as_str()),
                            output_file: copy_str(args[3].as_str()),
                        },
                    ),
                },
            )
        } else if str_equal(name.as_str(), "createdb") {
            if args.len() <= 2 {
                return Err(copy_str("Please provide a scryfall cards db path"));
            }
            if args.len() <= 3 {
                return Err(copy_str("Please provide an mtga cards db path"));
            }
            Ok(
                Config {
                    command: TrackerCommand::CreateDatabase(
                        CreateDatabaseParams {
                            scryfall_cards_json_path: copy_str(args[2].as_str()),
                            mtga_cards_json_path: copy_str(args[3].as_str()),
                            database_output_path: arg_or(args, 4, DEFAULT_DATABASE_PATH),
                        },
                    ),
                },
            )
        } else {
            Err(copy_str("Unrecognized command"))
        }
    }

    /// The command to run.
    pub fn command(&self) -> (r: &TrackerCommand)
        ensures
            r@ == self.command_view(),
    {
        &self.command
    }
}

} // verus!
