use minicli::ascii::eq_ignore_ascii_case;
use minicli::cli::{Cli, Config, ReadCommand, SubCommand};
use minicli::command::{
    conclude, health_endpoint, join_lines, Action, Command, CommandType, Outcome,
};

#[test]
fn unknown_verbs_are_rejected() {
    for verb in ["", "foo", "hel", "helpp", "reads", "readx", "directory", "HEALTHY"] {
        let r = CommandType::parse(&verb.to_string());
        assert_eq!(r, Err("Action string is not a valid command type".to_string()));
    }
}

#[test]
fn read_is_resolved_case_insensitively() {
    let a = CommandType::parse(&"READ".to_string()).ok().unwrap();
    let b = CommandType::parse(&"Read".to_string()).ok().unwrap();
    let c = CommandType::parse(&"read".to_string()).ok().unwrap();
    assert_eq!(a, CommandType::ReadFile);
    assert_eq!(a, b);
    assert_eq!(b, c);
}

#[test]
fn each_verb_resolves_to_its_kind() {
    assert_eq!(CommandType::parse(&"help".to_string()), Ok(CommandType::Help));
    assert_eq!(CommandType::parse(&"VERSION".to_string()), Ok(CommandType::Version));
    assert_eq!(CommandType::parse(&"read".to_string()), Ok(CommandType::ReadFile));
    assert_eq!(CommandType::parse(&"DiR".to_string()), Ok(CommandType::ReadDirectory));
    assert_eq!(CommandType::parse(&"Health".to_string()), Ok(CommandType::HealthCommand));
}

#[test]
fn canonical_names_resolve_back() {
    let kinds = [
        CommandType::Help,
        CommandType::Version,
        CommandType::ReadFile,
        CommandType::ReadDirectory,
        CommandType::HealthCommand,
    ];
    for t in kinds {
        assert_eq!(CommandType::parse(&t.name().to_string()), Ok(t));
    }
}

#[test]
fn case_folding_equality_is_exact() {
    assert!(eq_ignore_ascii_case("HeLp", "help"));
    assert!(eq_ignore_ascii_case("", ""));
    assert!(!eq_ignore_ascii_case("help", "hel"));
    assert!(!eq_ignore_ascii_case("help", "hell"));
}

#[test]
fn missing_action_string_is_reported() {
    let r = Command::new(vec![]);
    assert_eq!(r.err().unwrap(), "Action string is missing.");
}

#[test]
fn an_invocation_keeps_its_arguments_in_order() {
    let args = vec!["read".to_string(), "a".to_string(), "b".to_string()];
    let c = Command::new(args).ok().unwrap();
    assert_eq!(c.t, CommandType::ReadFile);
    assert_eq!(c.args, vec!["a".to_string(), "b".to_string()]);
}

#[test]
fn an_unknown_verb_fails_the_invocation() {
    let r = Command::new(vec!["launch".to_string(), "x".to_string()]);
    assert_eq!(r.err().unwrap(), "Action string is not a valid command type");
}

#[test]
fn help_and_version_answer_at_once() {
    let help = Command { t: CommandType::Help, args: vec![] };
    match help.plan() {
        Action::Respond(s) => assert_eq!(s, "Here is the help menu"),
        _ => panic!("help must answer at once"),
    }
    let version = Command { t: CommandType::Version, args: vec![] };
    match version.plan() {
        Action::Respond(s) => assert_eq!(s, "v1.0"),
        _ => panic!("version must answer at once"),
    }
}

#[test]
fn read_file_without_argument_is_rejected() {
    let c = Command { t: CommandType::ReadFile, args: vec![] };
    match c.plan() {
        Action::Reject(e) => assert_eq!(e, "Missing file path"),
        _ => panic!("a missing file path must be rejected"),
    }
}

#[test]
fn read_directory_without_argument_is_rejected() {
    let c = Command { t: CommandType::ReadDirectory, args: vec![] };
    match c.plan() {
        Action::Reject(e) => assert_eq!(e, "Missing directory path"),
        _ => panic!("a missing directory path must be rejected"),
    }
}

#[test]
fn read_invocation_returns_exact_contents() {
    let c = Command::new(vec!["read".to_string(), "notes.txt".to_string()]).ok().unwrap();
    match c.plan() {
        Action::ReadFile(p) => assert_eq!(p, "notes.txt"),
        _ => panic!("read must ask for the file"),
    }
    let contents = "line one\nline two\n".to_string();
    let r = conclude(Outcome::FileRead(Ok(contents.clone())));
    assert_eq!(r, Ok(contents));
}

#[test]
fn failed_read_surfaces_the_io_error() {
    let r = conclude(Outcome::FileRead(Err("No such file or directory (os error 2)".to_string())));
    assert_eq!(r, Err("No such file or directory (os error 2)".to_string()));
}

#[test]
fn directory_listing_is_newline_joined() {
    let names = vec!["a.txt".to_string(), "b.txt".to_string()];
    let r = conclude(Outcome::DirectoryListed(Ok(names)));
    assert_eq!(r, Ok("a.txt\nb.txt".to_string()));
}

#[test]
fn failed_listing_surfaces_the_io_error() {
    let r = conclude(Outcome::DirectoryListed(Err("Not a directory (os error 20)".to_string())));
    assert_eq!(r, Err("Not a directory (os error 20)".to_string()));
}

#[test]
fn join_lines_adds_no_leading_or_trailing_newline() {
    assert_eq!(join_lines(&vec![]), "");
    assert_eq!(join_lines(&vec!["only".to_string()]), "only");
    let three = vec!["a".to_string(), "b".to_string(), "c".to_string()];
    assert_eq!(join_lines(&three), "a\nb\nc");
}

#[test]
fn health_probes_the_fixed_endpoint() {
    let c = Command { t: CommandType::HealthCommand, args: vec![] };
    assert!(matches!(c.plan(), Action::HealthCheck));
    assert_eq!(health_endpoint(), "https://partybox.im/api/health");
}

#[test]
fn health_body_is_passed_through() {
    let r = conclude(Outcome::HealthChecked(Ok("ok".to_string())));
    assert_eq!(r, Ok("ok".to_string()));
}

#[test]
fn health_failure_is_a_network_error_string() {
    let r = conclude(Outcome::HealthChecked(Err("error sending request".to_string())));
    assert_eq!(r, Err("error sending request".to_string()));
}

#[test]
fn cli_carries_its_subcommand() {
    let cli = Cli { config: Config, subcmd: SubCommand::Read(ReadCommand) };
    match cli.subcmd {
        SubCommand::Read(ReadCommand) => {}
    }
}
