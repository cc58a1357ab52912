use ybuild::cli::{help_text, parse_cli, Cli, CliRequest};
use ybuild::error::YbuildError;

fn parse(args: &[&str]) -> Result<CliRequest, YbuildError> {
    parse_cli(args.iter().map(|s| s.to_string()).collect())
}

fn run(args: &[&str]) -> Cli {
    match parse(args) {
        Ok(CliRequest::Run(c)) => c,
        other => panic!("not a run: {:?}", other),
    }
}

#[test]
fn no_arguments_build_the_current_directory() {
    let c = run(&[]);
    assert!(!c.options.run && !c.options.test && !c.options.release && !c.watch);
    assert!(!c.select_system && !c.select_command);
    assert_eq!(c.target_dir, None);
    assert_eq!(c.custom_command, None);
}

#[test]
fn help_and_list_win() {
    assert_eq!(parse(&["-x", "--help"]), Ok(CliRequest::Help));
    assert_eq!(parse(&["-h", "-l"]), Ok(CliRequest::Help));
    assert_eq!(parse(&["dir", "--list"]), Ok(CliRequest::List));
    let h = help_text();
    assert!(h.contains("Usage: builder"));
    assert!(h.contains("  -t, --test         Run project tests\n"));
}

#[test]
fn flags_in_short_and_long_form() {
    let c = run(&["-r", "--run", "-t", "--system", "-S", "--watch"]);
    assert!(c.options.release && c.options.run && c.options.test);
    assert!(c.select_system && c.options.select_system);
    assert!(c.select_command && c.options.select_command);
    assert!(c.watch);
}

#[test]
fn directory_may_come_before_flags() {
    let c = run(&["./my-project", "-x"]);
    assert!(c.options.run);
    assert_eq!(c.target_dir, Some("./my-project".to_string()));
}

#[test]
fn custom_command_takes_the_next_argument() {
    let c = run(&["-c", "make all", "proj"]);
    assert_eq!(c.custom_command, Some("make all".to_string()));
    assert_eq!(c.target_dir, Some("proj".to_string()));
    assert_eq!(
        parse(&["--command", "-x"]),
        Err(YbuildError::Other("the '--command' option doesn't have an associated value".to_string()))
    );
}

#[test]
fn custom_command_without_value_is_an_error() {
    assert_eq!(
        parse(&["-c"]),
        Err(YbuildError::Other("the '-c' option doesn't have an associated value".to_string()))
    );
    assert_eq!(
        parse(&["proj", "--command"]),
        Err(YbuildError::Other("the '--command' option doesn't have an associated value".to_string()))
    );
}

#[test]
fn flags_are_case_sensitive() {
    let c = run(&["-s"]);
    assert!(c.select_system && !c.select_command);
    let d = run(&["-S"]);
    assert!(!d.select_system && d.select_command);
}

#[test]
fn unknown_arguments_after_the_directory_are_left_alone() {
    let c = run(&["a", "b", "-x"]);
    assert_eq!(c.target_dir, Some("a".to_string()));
    assert!(c.options.run);
}
