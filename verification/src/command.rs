//! Command resolution and execution.
//!
//! A verb is resolved, case-insensitively, to one of a fixed set of
//! operation kinds. An invocation (a kind plus its positional arguments)
//! is then planned: it either answers at once, rejects the invocation, or
//! names the one file-system or network action the caller must perform.
//! The outcome of that action is handed back to [`conclude`], which builds
//! the final result string.

use vstd::prelude::*;

use crate::ascii::{eq_ignore_ascii_case, lower_seq};

verus! {

/// The closed set of operations a verb can resolve to.
#[derive(Debug, Clone, Copy, PartialEq, Eq, Structural)]
pub enum CommandType {
    Help,
    Version,
    ReadFile,
    ReadDirectory,
    HealthCommand,
}

/// The operation kind a verb resolves to, or `None` when the verb matches
/// none of the five known verbs up to ASCII case.
pub open spec fn resolve_spec(s: Seq<char>) -> Option<CommandType> {
    if lower_seq(s) == lower_seq("help"@) {
        Some(CommandType::Help)
    } else if lower_seq(s) == lower_seq("version"@) {
        Some(CommandType::Version)
    } else if lower_seq(s) == lower_seq("read"@) {
        Some(CommandType::ReadFile)
    } else if lower_seq(s) == lower_seq("dir"@) {
        Some(CommandType::ReadDirectory)
    } else if lower_seq(s) == lower_seq("health"@) {
        Some(CommandType::HealthCommand)
    } else {
        None
    }
}

/// The canonical lowercase verb of each operation kind.
pub open spec fn canonical_verb(t: CommandType) -> Seq<char> {
    match t {
        CommandType::Help => "help"@,
        CommandType::Version => "version"@,
        CommandType::ReadFile => "read"@,
        CommandType::ReadDirectory => "dir"@,
        CommandType::HealthCommand => "health"@,
    }
}

impl CommandType {
    /// Resolve a verb to its operation kind; matching is case-insensitive
    /// and exact, and an unknown verb is reported as such.
    pub fn parse(action_str: &String) -> (r: Result<CommandType, String>)
        ensures
            match r {
                Ok(t) => resolve_spec(action_str@) == Some(t),
                Err(e) => resolve_spec(action_str@) is None && e@
                    == "Action string is not a valid command type"@,
            },
    {
        let s = action_str.as_str();
        if eq_ignore_ascii_case(s, "help") {
            Ok(CommandType::Help)
        } else if eq_ignore_ascii_case(s, "version") {
            Ok(CommandType::Version)
        } else if eq_ignore_ascii_case(s, "read") {
            Ok(CommandType::ReadFile)
        } else if eq_ignore_ascii_case(s, "dir") {
            Ok(CommandType::ReadDirectory)
        } else if eq_ignore_ascii_case(s, "health") {
            Ok(CommandType::HealthCommand)
        } else {
            Err(String::from_str("Action string is not a valid command type"))
        }
    }

    /// The canonical lowercase verb of this operation kind.
    pub fn name(&self) -> (s: &'static str)
        ensures
            s@ == canonical_verb(*self),
    {
        match self {
            CommandType::Help => "help",
            CommandType::Version => "version",
            CommandType::ReadFile => "read",
            CommandType::ReadDirectory => "dir",
            CommandType::HealthCommand => "health",
        }
    }
}

/// Resolution is case-insensitive: verbs with equal folded sequences
/// resolve to the same operation kind (or both fail).
pub proof fn lemma_resolve_case_insensitive(s: Seq<char>, t: Seq<char>)
    requires
        lower_seq(s) == lower_seq(t),
    ensures
        resolve_spec(s) == resolve_spec(t),
{
}

/// The canonical verb of an operation kind resolves back to exactly that
/// kind: resolution and naming are a round trip.
pub proof fn lemma_canonical_verb_resolves(t: CommandType)
    ensures
        resolve_spec(canonical_verb(t)) == Some(t),
{
    reveal_strlit("help");
    reveal_strlit("version");
    reveal_strlit("read");
    reveal_strlit("dir");
    reveal_strlit("health");
    assert(lower_seq("help"@).len() == 4);
    assert(lower_seq("version"@).len() == 7);
    assert(lower_seq("read"@).len() == 4);
    assert(lower_seq("dir"@).len() == 3);
    assert(lower_seq("health"@).len() == 6);
    assert(lower_seq("read"@)[0] == 114);
    assert(lower_seq("help"@)[0] == 104);
    assert(lower_seq("read"@) != lower_seq("help"@));
}

/// The fixed help text.
pub open spec fn help_text() -> Seq<char> {
    "Here is the help menu"@
}

/// The fixed version text.
pub open spec fn version_text() -> Seq<char> {
    "v1.0"@
}

/// The fixed endpoint the health check probes.
pub fn health_endpoint() -> (s: &'static str)
    ensures
        s@ == "https://partybox.im/api/health"@,
{
    "https://partybox.im/api/health"
}

/// One invocation: a resolved operation kind and its positional
/// arguments, in command-line order. Only the first argument is ever
/// consulted (as a file or directory path).
pub struct Command {
    pub t: CommandType,
    pub args: Vec<String>,
}

/// The one outside action an invocation asks for, or its immediate
/// answer when no action is needed.
pub enum Action {
    /// The invocation is answered at once with this result string.
    Respond(String),
    /// The invocation is rejected with this error before any action runs.
    Reject(String),
    /// Read the file at this path and report the outcome.
    ReadFile(String),
    /// List the directory at this path and report the outcome.
    ReadDirectory(String),
    /// Probe the fixed health endpoint and report the outcome.
    HealthCheck,
}

/// The outcome of an invocation's action, as the caller reports it:
/// the value the action produced, or the error it failed with, already
/// rendered as a string.
pub enum Outcome {
    /// Outcome of [`Action::ReadFile`]: the file's contents.
    FileRead(Result<String, String>),
    /// Outcome of [`Action::ReadDirectory`]: the entry names, in the
    /// order the enumeration yielded them.
    DirectoryListed(Result<Vec<String>, String>),
    /// Outcome of [`Action::HealthCheck`]: the response body.
    HealthChecked(Result<String, String>),
}

impl Command {
    /// Build an invocation from the raw argument list: the first entry
    /// is the verb, the rest are the operation's positional arguments.
    pub fn new(args: Vec<String>) -> (r: Result<Command, String>)
        ensures
            match r {
                Ok(c) => {
                    &&& args@.len() > 0
                    &&& resolve_spec(args@[0]@) == Some(c.t)
                    &&& c.args@ == args@.skip(1)
                },
                Err(e) => {
                    ||| (args@.len() == 0 && e@ == "Action string is missing."@)
                    ||| (args@.len() > 0 && resolve_spec(args@[0]@) is None && e@
                        == "Action string is not a valid command type"@)
                },
            },
    {
        let mut rest = args;
        if rest.len() == 0 {
            return Err(String::from_str("Action string is missing."));
        }
        let first_arg = rest.remove(0);
        let action = match CommandType::parse(&first_arg) {
            Ok(x) => x,
            Err(e) => {
                return Err(e);
            },
        };
        proof {
            assert(rest@ =~= args@.skip(1));
        }
        Ok(Command { t: action, args: rest })
    }

    /// Decide what this invocation does: answer at once (help, version),
    /// reject it when a required path argument is missing, or name the
    /// file-system or network action the caller must perform.
    pub fn plan(&self) -> (a: Action)
        ensures
            match self.t {
                CommandType::Help => a matches Action::Respond(s) && s@ == help_text(),
                CommandType::Version => a matches Action::Respond(s) && s@ == version_text(),
                CommandType::ReadFile => if self.args@.len() == 0 {
                    a matches Action::Reject(e) && e@ == "Missing file path"@
                } else {
                    a matches Action::ReadFile(p) && p@ == self.args@[0]@
                },
                CommandType::ReadDirectory => if self.args@.len() == 0 {
                    a matches Action::Reject(e) && e@ == "Missing directory path"@
                } else {
                    a matches Action::ReadDirectory(p) && p@ == self.args@[0]@
                },
                CommandType::HealthCommand => a matches Action::HealthCheck,
            },
    {
        match self.t {
            CommandType::Help => Action::Respond(String::from_str("Here is the help menu")),
            CommandType::Version => Action::Respond(String::from_str("v1.0")),
            CommandType::ReadFile => match self.args.get(0) {
                None => Action::Reject(String::from_str("Missing file path")),
                Some(p) => Action::ReadFile(p.clone()),
            },
            CommandType::ReadDirectory => match self.args.get(0) {
                None => Action::Reject(String::from_str("Missing directory path")),
                Some(p) => Action::ReadDirectory(p.clone()),
            },
            CommandType::HealthCommand => Action::HealthCheck,
        }
    }
}

/// The entry names joined with a newline between neighbours: no leading
/// or trailing newline, and an empty listing stays empty.
pub open spec fn joined(names: Seq<Seq<char>>) -> Seq<char>
    decreases names.len(),
{
    if names.len() == 0 {
        Seq::empty()
    } else if names.len() == 1 {
        names[0]
    } else {
        joined(names.drop_last()) + seq!['\n'] + names.last()
    }
}

/// Join directory entry names, one name per line.
pub fn join_lines(names: &Vec<String>) -> (out: String)
    ensures
        out@ == joined(names.deep_view()),
{
    let ghost dv = names.deep_view();
    let mut out = String::new();
    let mut i: usize = 0;
    while i < names.len()
        invariant
            dv == names.deep_view(),
            dv.len() == names@.len(),
            i <= names@.len(),
            out@ == joined(dv.take(i as int)),
        decreases names@.len() - i,
    {
        if i > 0 {
            out.append("\n");
        }
        out.append(names[i].as_str());
        proof {
            reveal_strlit("\n");
            assert(names@[i as int].deep_view() == dv[i as int]);
            assert(dv.take(i + 1).drop_last() =~= dv.take(i as int));
            assert(dv.take(i + 1).last() == dv[i as int]);
            if i == 0 {
                assert(joined(dv.take(1)) == dv[0]);
            }
        }
        i += 1;
    }
    proof {
        assert(dv.take(names@.len() as int) =~= dv);
    }
    out
}

/// Turn the outcome of an invocation's action into its final result:
/// a produced value is passed through (directory entries are joined one
/// per line), and the action's error becomes the invocation's error.
pub fn conclude(outcome: Outcome) -> (r: Result<String, String>)
    ensures
        match outcome {
            Outcome::FileRead(res) => match res {
                Ok(c) => r matches Ok(s) && s@ == c@,
                Err(e) => r matches Err(s) && s@ == e@,
            },
            Outcome::DirectoryListed(res) => match res {
                Ok(names) => r matches Ok(s) && s@ == joined(names.deep_view()),
                Err(e) => r matches Err(s) && s@ == e@,
            },
            Outcome::HealthChecked(res) => match res {
                Ok(b) => r matches Ok(s) && s@ == b@,
                Err(e) => r matches Err(s) && s@ == e@,
            },
        },
{
    match outcome {
        Outcome::FileRead(res) => res,
        Outcome::DirectoryListed(res) => match res {
            Ok(names) => Ok(join_lines(&names)),
            Err(e) => Err(e),
        },
        Outcome::HealthChecked(res) => res,
    }
}

} // verus!
