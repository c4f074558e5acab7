//! The command-line surface: the three subcommands and a verified
//! parser for an argument list, the first element of which is the
//! program's own name.

use vstd::prelude::*;

verus! {

broadcast use vstd::string::group_string_axioms;

/// The available subcommands.
#[derive(Debug)]
pub enum Command {
    /// Stage one or more paths; at least one is required.
    Add { files: Vec<String> },
    /// Create a commit; takes no further argument.
    Commit,
    /// Push the current branch; takes no further argument.
    Push,
}

/// A parsed invocation.
#[derive(Debug)]
pub struct Cli {
    /// The subcommand the operator asked for.
    pub command: Command,
}

/// Why an argument list does not parse.
#[derive(Clone, Copy, Debug, PartialEq, Eq, Structural)]
pub enum CliError {
    /// No subcommand was given.
    MissingSubcommand,
    /// The subcommand is none of `add`, `commit`, `push`.
    UnknownSubcommand,
    /// `add` was given without any path.
    MissingPaths,
    /// `commit` or `push` was given a further argument.
    UnexpectedArgument,
}

impl Cli {
    /// Parses an argument list. The element at position zero is the
    /// program name and is ignored; the one after it names the
    /// subcommand; everything further belongs to `add` as its paths
    /// and is refused for the other two subcommands.
    pub fn parse_from(args: Vec<String>) -> (res: Result<Cli, CliError>)
        ensures
            args@.len() < 2 ==> res == Err::<Cli, CliError>(CliError::MissingSubcommand),
            args@.len() == 2 && args@[1]@ == "add"@ ==> res == Err::<Cli, CliError>(CliError::MissingPaths),
            args@.len() > 2 && args@[1]@ == "add"@ ==> (res matches Ok(cli)
                && (cli.command matches Command::Add { files }
                    && files@.len() == args@.len() - 2
                    && (forall|i: int| 0 <= i < files@.len()
                        ==> #[trigger] files@[i]@ == args@[i + 2]@))),
            args@.len() == 2 && args@[1]@ == "commit"@ ==> (res matches Ok(cli)
                && cli.command matches Command::Commit),
            args@.len() > 2 && args@[1]@ == "commit"@ ==> res == Err::<Cli, CliError>(CliError::UnexpectedArgument),
            args@.len() == 2 && args@[1]@ == "push"@ ==> (res matches Ok(cli)
                && cli.command matches Command::Push),
            args@.len() > 2 && args@[1]@ == "push"@ ==> res == Err::<Cli, CliError>(CliError::UnexpectedArgument),
            args@.len() >= 2 && args@[1]@ != "add"@ && args@[1]@ != "commit"@
                && args@[1]@ != "push"@ ==> res == Err::<Cli, CliError>(CliError::UnknownSubcommand),
    {
        proof {
            reveal_strlit("add");
            reveal_strlit("commit");
            reveal_strlit("push");
            // the three subcommand words differ already in length
            assert("add"@.len() == 3);
            assert("commit"@.len() == 6);
            assert("push"@.len() == 4);
        }
        if args.len() < 2 {
            return Err(CliError::MissingSubcommand);
        }
        let add_word = String::from_str("add");
        let commit_word = String::from_str("commit");
        let push_word = String::from_str("push");
        if args[1] == add_word {
            if args.len() == 2 {
                return Err(CliError::MissingPaths);
            }
            let mut files: Vec<String> = Vec::new();
            let mut k: usize = 2;
            while k < args.len()
                invariant
                    2 <= k <= args@.len(),
                    files@.len() == k - 2,
                    forall|i: int| 0 <= i < files@.len()
                        ==> #[trigger] files@[i]@ == args@[i + 2]@,
                decreases args@.len() - k,
            {
                files.push(args[k].clone());
                k = k + 1;
            }
            Ok(Cli { command: Command::Add { files } })
        } else if args[1] == commit_word {
            if args.len() == 2 {
                Ok(Cli { command: Command::Commit })
            } else {
                Err(CliError::UnexpectedArgument)
            }
        } else if args[1] == push_word {
            if args.len() == 2 {
                Ok(Cli { command: Command::Push })
            } else {
                Err(CliError::UnexpectedArgument)
            }
        } else {
            Err(CliError::UnknownSubcommand)
        }
    }
}

} // verus!
