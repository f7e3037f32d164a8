//! Command-line interface: the command grammar and its parser.
//!
//! The grammar, after the leading program name: `-v`/`--verbose` may appear
//! before a subcommand; `-h`/`--help` and `-V`/`--version` end parsing with
//! the corresponding request; `transcribe` takes one `--file`/`-f` value;
//! `record` and `reset-config` take nothing further.  Tokens are matched
//! whole; anything unrecognized is rejected.

use vstd::prelude::*;

use crate::text::str_eq;
use crate::text::string_views;

verus! {

/// Ghost model of a parsed subcommand.
pub ghost enum CommandModel {
    Transcribe { file: Seq<char> },
    Record,
    ResetConfig,
}

/// Ghost model of a parsed command line.
pub ghost struct CliModel {
    pub command: Option<CommandModel>,
    pub verbose: bool,
}

/// A parsed command line: the chosen subcommand, if any, and the verbosity
/// flag.  No subcommand means record-and-transcribe.
#[derive(Debug)]
pub struct Cli {
    pub command: Option<Commands>,
    pub verbose: bool,
}

/// The subcommands.
#[derive(Debug)]
pub enum Commands {
    /// Transcribe an existing audio file
    Transcribe { file: String },
    /// Record audio and save it to a file
    Record,
    /// Reset configuration to default values
    ResetConfig,
}

impl View for Commands {
    type V = CommandModel;

    open spec fn view(&self) -> CommandModel {
        match self {
            Commands::Transcribe { file } => CommandModel::Transcribe { file: file@ },
            Commands::Record => CommandModel::Record,
            Commands::ResetConfig => CommandModel::ResetConfig,
        }
    }
}

impl View for Cli {
    type V = CliModel;

    open spec fn view(&self) -> CliModel {
        CliModel {
            command: match self.command {
                Some(c) => Some(c@),
                None => None,
            },
            verbose: self.verbose,
        }
    }
}

/// Why a command line was rejected.
#[derive(Debug, Clone, Copy, PartialEq, Eq, Structural)]
pub enum CliError {
    /// Help was asked for; the caller prints usage and exits.
    HelpRequested,
    /// The version was asked for; the caller prints it and exits.
    VersionRequested,
    /// The first free token names no known subcommand.
    UnknownCommand,
    /// A token the grammar has no place for.
    UnexpectedArgument,
    /// `transcribe` without its file argument.
    MissingFileArgument,
    /// A flag that needs a value stood last.
    MissingValue,
    /// The same flag was given twice.
    DuplicateArgument,
}

/// Tokens after a complete `record` or `reset-config` command: nothing is
/// accepted but a help request.
pub open spec fn spec_parse_bare(args: Seq<Seq<char>>, done: CliModel) -> Result<
    CliModel,
    CliError,
> {
    if args.len() == 0 {
        Ok(done)
    } else if args.first() == "-h"@ || args.first() == "--help"@ {
        Err(CliError::HelpRequested)
    } else {
        Err(CliError::UnexpectedArgument)
    }
}

/// Tokens after `transcribe`: one `--file`/`-f` with its value, which must
/// be present exactly once.
pub open spec fn spec_parse_transcribe(
    args: Seq<Seq<char>>,
    verbose: bool,
    file: Option<Seq<char>>,
) -> Result<CliModel, CliError>
    decreases args.len(),
{
    if args.len() == 0 {
        match file {
            Some(f) => Ok(
                CliModel { command: Some(CommandModel::Transcribe { file: f }), verbose },
            ),
            None => Err(CliError::MissingFileArgument),
        }
    } else {
        let t = args.first();
        if t == "-f"@ || t == "--file"@ {
            if file is Some {
                Err(CliError::DuplicateArgument)
            } else if args.len() == 1 {
                Err(CliError::MissingValue)
            } else {
                spec_parse_transcribe(args.drop_first().drop_first(), verbose, Some(args[1]))
            }
        } else if t == "-h"@ || t == "--help"@ {
            Err(CliError::HelpRequested)
        } else {
            Err(CliError::UnexpectedArgument)
        }
    }
}

/// Tokens before a subcommand: verbosity, help and version flags, then the
/// subcommand name.
pub open spec fn spec_parse_root(args: Seq<Seq<char>>, verbose: bool) -> Result<
    CliModel,
    CliError,
>
    decreases args.len(),
{
    if args.len() == 0 {
        Ok(CliModel { command: None, verbose })
    } else {
        let t = args.first();
        if t == "-v"@ || t == "--verbose"@ {
            spec_parse_root(args.drop_first(), true)
        } else if t == "-h"@ || t == "--help"@ {
            Err(CliError::HelpRequested)
        } else if t == "-V"@ || t == "--version"@ {
            Err(CliError::VersionRequested)
        } else if t == "transcribe"@ {
            spec_parse_transcribe(args.drop_first(), verbose, None)
        } else if t == "record"@ {
            spec_parse_bare(
                args.drop_first(),
                CliModel { command: Some(CommandModel::Record), verbose },
            )
        } else if t == "reset-config"@ {
            spec_parse_bare(
                args.drop_first(),
                CliModel { command: Some(CommandModel::ResetConfig), verbose },
            )
        } else {
            Err(CliError::UnknownCommand)
        }
    }
}

/// What a full argument vector parses to; the leading program name is
/// ignored.
pub open spec fn spec_parse_cli(args: Seq<Seq<char>>) -> Result<CliModel, CliError> {
    if args.len() == 0 {
        spec_parse_root(args, false)
    } else {
        spec_parse_root(args.drop_first(), false)
    }
}

impl Cli {
    /// Parses an argument vector, program name first, against the command
    /// grammar.
    pub fn try_parse_from(args: Vec<String>) -> (r: Result<Cli, CliError>)
        ensures
            match spec_parse_cli(string_views(args@)) {
                Ok(m) => r matches Ok(c) && c@ == m,
                Err(e) => r == Err::<Cli, CliError>(e),
            },
    {
        let ghost views = string_views(args@);
        let n = args.len();
        let mut i: usize = if n == 0 {
            0
        } else {
            1
        };
        let mut verbose = false;
        proof {
            if n > 0 {
                assert(views.skip(1) =~= views.drop_first());
            } else {
                assert(views.skip(0) =~= views);
            }
        }
        while i < n
            invariant
                n == args@.len(),
                i <= n,
                views == string_views(args@),
                spec_parse_cli(views) == spec_parse_root(views.skip(i as int), verbose),
            decreases n - i,
        {
            proof {
                assert(views.skip(i as int).first() == views[i as int]);
                assert(views[i as int] == args@[i as int]@);
                assert(views.skip(i as int).drop_first() =~= views.skip(i + 1));
            }
            let t = &args[i];
            if str_eq(t.as_str(), "-v") || str_eq(t.as_str(), "--verbose") {
                verbose = true;
                i += 1;
            } else if str_eq(t.as_str(), "-h") || str_eq(t.as_str(), "--help") {
                return Err(CliError::HelpRequested);
            } else if str_eq(t.as_str(), "-V") || str_eq(t.as_str(), "--version") {
                return Err(CliError::VersionRequested);
            } else if str_eq(t.as_str(), "transcribe") {
                i += 1;
                let mut file: Option<String> = None;
                while i < n
                    invariant
                        n == args@.len(),
                        i <= n,
                        views == string_views(args@),
                        spec_parse_cli(views) == spec_parse_transcribe(
                            views.skip(i as int),
                            verbose,
                            match file {
                                Some(f) => Some(f@),
                                None => None::<Seq<char>>,
                            },
                        ),
                    decreases n - i,
                {
                    proof {
                        assert(views.skip(i as int).first() == views[i as int]);
                        assert(views[i as int] == args@[i as int]@);
                        assert(views.skip(i as int).drop_first() =~= views.skip(i + 1));
                    }
                    let u = &args[i];
                    if str_eq(u.as_str(), "-f") || str_eq(u.as_str(), "--file") {
                        match file {
                            Some(_) => {
                                return Err(CliError::DuplicateArgument);
                            },
                            None => {},
                        }
                        if i + 1 >= n {
                            return Err(CliError::MissingValue);
                        }
                        proof {
                            assert(views.skip(i as int)[1] == views[i + 1]);
                            assert(views[i + 1] == args@[i + 1]@);
                            assert(views.skip(i as int).drop_first().drop_first() =~= views.skip(
                                i + 2,
                            ));
                        }
                        file = Some(args[i + 1].clone());
                        i += 2;
                    } else if str_eq(u.as_str(), "-h") || str_eq(u.as_str(), "--help") {
                        return Err(CliError::HelpRequested);
                    } else {
                        return Err(CliError::UnexpectedArgument);
                    }
                }
                proof {
                    assert(views.skip(i as int) =~= Seq::<Seq<char>>::empty());
                }
                match file {
                    Some(f) => {
                        return Ok(
                            Cli { command: Some(Commands::Transcribe { file: f }), verbose },
                        );
                    },
                    None => {
                        return Err(CliError::MissingFileArgument);
                    },
                }
            } else if str_eq(t.as_str(), "record") {
                if i + 1 < n {
                    proof {
                        assert(views.skip(i + 1).first() == views[i + 1]);
                        assert(views[i + 1] == args@[i + 1]@);
                    }
                    let u = &args[i + 1];
                    if str_eq(u.as_str(), "-h") || str_eq(u.as_str(), "--help") {
                        return Err(CliError::HelpRequested);
                    }
                    return Err(CliError::UnexpectedArgument);
                }
                proof {
                    assert(views.skip(i + 1) =~= Seq::<Seq<char>>::empty());
                }
                return Ok(Cli { command: Some(Commands::Record), verbose });
            } else if str_eq(t.as_str(), "reset-config") {
                if i + 1 < n {
                    proof {
                        assert(views.skip(i + 1).first() == views[i + 1]);
                        assert(views[i + 1] == args@[i + 1]@);
                    }
                    let u = &args[i + 1];
                    if str_eq(u.as_str(), "-h") || str_eq(u.as_str(), "--help") {
                        return Err(CliError::HelpRequested);
                    }
                    return Err(CliError::UnexpectedArgument);
                }
                proof {
                    assert(views.skip(i + 1) =~= Seq::<Seq<char>>::empty());
                }
                return Ok(Cli { command: Some(Commands::ResetConfig), verbose });
            } else {
                return Err(CliError::UnknownCommand);
            }
        }
        proof {
            assert(views.skip(i as int) =~= Seq::<Seq<char>>::empty());
        }
        Ok(Cli { command: None, verbose })
    }
}

} // verus!
