use ybuild::cli::Cli;
use ybuild::config::save_preference;
use ybuild::error::YbuildError;
use ybuild::options::BuildOptions;
use ybuild::session::{
    detected_indices, find_system, rerun_due, run_step, select_and_save_system, Choice, RunAction, RunEvent,
    RunStage,
};
use ybuild::systems::{get_systems, System};

const P: &str = "/p";

fn cli() -> Cli {
    Cli {
        options: BuildOptions::default(),
        target_dir: None,
        watch: false,
        select_system: false,
        select_command: false,
        custom_command: None,
    }
}

fn strings(v: &[&str]) -> Vec<String> {
    v.iter().map(|s| s.to_string()).collect()
}

fn flags(names: &[&str]) -> Vec<bool> {
    get_systems().iter().map(|s| names.contains(&s.name())).collect()
}

/// Drives a run with the given answers, returning the actions in order.
fn drive(c: &Cli, project: &str, answers: Vec<RunEvent>) -> Vec<RunAction> {
    let mut out = Vec::new();
    let mut st = RunStage::Begin;
    let mut ev = RunEvent::Start;
    let mut answers = answers.into_iter();
    loop {
        let (next, act) = run_step(c, Some(project), st, &ev);
        let done = matches!(act, RunAction::Finish(_));
        out.push(act);
        if done {
            return out;
        }
        st = next;
        match answers.next() {
            Some(e) => ev = e,
            None => return out,
        }
    }
}

fn save(system: &str, command: Option<&str>, quiet: bool) -> RunAction {
    RunAction::Save { system: system.to_string(), command: command.map(|c| c.to_string()), quiet }
}

fn build(i: usize, note: Option<&str>) -> RunAction {
    let name = get_systems()[i].name();
    RunAction::Build { choice: Choice::Known(i), note: note.map(|n| n.to_string()), banner: format!("using: {}", name) }
}

fn custom_build(c: &str, note: Option<&str>) -> RunAction {
    RunAction::Build {
        choice: Choice::Custom(c.to_string()),
        note: note.map(|n| n.to_string()),
        banner: "using: Custom Command".to_string(),
    }
}

#[test]
fn given_command_runs_then_is_remembered() {
    let mut c = cli();
    c.custom_command = Some("make -j4".to_string());
    let acts = drive(&c, P, vec![RunEvent::Built(None), RunEvent::Done]);
    assert_eq!(
        acts,
        vec![
            custom_build("make -j4", None),
            save("Custom Command", Some("make -j4"), false),
            RunAction::Finish(Ok(())),
        ]
    );
}

#[test]
fn nothing_detected_is_an_error() {
    let acts = drive(&cli(), P, vec![RunEvent::Config(None), RunEvent::Detected(flags(&[]))]);
    assert_eq!(
        acts,
        vec![RunAction::LoadConfig, RunAction::Detect, RunAction::Finish(Err(YbuildError::NoBuildSystem))]
    );
    assert_eq!(
        YbuildError::NoBuildSystem.message(),
        "No supported build system found in this directory"
    );
}

#[test]
fn single_detected_system_is_announced_used_and_remembered() {
    let acts = drive(
        &cli(),
        P,
        vec![RunEvent::Config(None), RunEvent::Detected(flags(&["Makefile"])), RunEvent::Built(None), RunEvent::Done],
    );
    assert_eq!(
        acts,
        vec![
            RunAction::LoadConfig,
            RunAction::Detect,
            build(1, None),
            save("Makefile", None, false),
            RunAction::Finish(Ok(())),
        ]
    );
    match &acts[2] {
        RunAction::Build { banner, .. } => assert_eq!(banner, "using: Makefile"),
        other => panic!("{:?}", other),
    }
}

#[test]
fn a_failed_build_is_not_remembered() {
    let acts = drive(
        &cli(),
        P,
        vec![RunEvent::Config(None), RunEvent::Detected(flags(&["Rust"])), RunEvent::Failed("boom".to_string())],
    );
    assert_eq!(acts[2], build(0, None));
    assert_eq!(acts[3], RunAction::Finish(Err(YbuildError::Other("boom".to_string()))));
    assert!(!acts.iter().any(|a| matches!(a, RunAction::Save { .. })));
}

#[test]
fn several_detected_systems_are_offered() {
    let acts = drive(
        &cli(),
        P,
        vec![
            RunEvent::Config(None),
            RunEvent::Detected(flags(&["Rust", "Makefile"])),
            RunEvent::Picked("Makefile".to_string()),
            RunEvent::Built(None),
        ],
    );
    assert_eq!(
        acts[2],
        RunAction::Ask {
            prompt: "Multiple build systems detected. Select one:".to_string(),
            options: strings(&["Rust", "Makefile"])
        }
    );
    assert_eq!(acts[3], build(1, None));
    assert_eq!(acts[4], save("Makefile", None, false));
}

#[test]
fn remembered_system_is_used_without_detection() {
    let config = save_preference(None, Some(P), "Rust", None).unwrap();
    let acts = drive(&cli(), P, vec![RunEvent::Config(Some(config)), RunEvent::Built(None)]);
    assert_eq!(
        acts,
        vec![
            RunAction::LoadConfig,
            build(0, Some("Using cached system: Rust (use -s to change)")),
            RunAction::Finish(Ok(())),
        ]
    );
}

#[test]
fn remembered_command_runs_unless_reselected() {
    let config = save_preference(None, Some(P), "Custom Command", Some("cargo xtask")).unwrap();
    let acts = drive(&cli(), P, vec![RunEvent::Config(Some(config.clone())), RunEvent::Built(None)]);
    assert_eq!(
        acts,
        vec![
            RunAction::LoadConfig,
            custom_build("cargo xtask", Some("Using cached command: cargo xtask (use -S to change)")),
            save("Custom Command", Some("cargo xtask"), false),
        ]
    );
    let mut c = cli();
    c.select_command = true;
    let again = drive(&c, P, vec![RunEvent::Config(Some(config))]);
    assert_eq!(again, vec![RunAction::LoadConfig, RunAction::Detect]);
}

#[test]
fn other_directories_are_not_affected() {
    let config = save_preference(None, Some("/other"), "Rust", None).unwrap();
    let acts = drive(&cli(), P, vec![RunEvent::Config(Some(config))]);
    assert_eq!(acts, vec![RunAction::LoadConfig, RunAction::Detect]);
}

#[test]
fn a_project_path_that_is_not_unicode_has_no_preference() {
    let config = save_preference(None, Some(P), "Rust", None).unwrap();
    let mut st = RunStage::Begin;
    let (next, _) = run_step(&cli(), None, st, &RunEvent::Start);
    st = next;
    let (_, act) = run_step(&cli(), None, st, &RunEvent::Config(Some(config)));
    assert_eq!(act, RunAction::Detect);
}

#[test]
fn forced_selection_asks_even_for_one_system() {
    let mut c = cli();
    c.select_system = true;
    let acts = drive(&c, P, vec![RunEvent::Detected(flags(&["Go"])), RunEvent::Picked("Go".to_string()), RunEvent::Built(None)]);
    assert_eq!(acts[0], RunAction::Detect);
    assert_eq!(
        acts[1],
        RunAction::Ask { prompt: "Multiple build systems detected. Select one:".to_string(), options: strings(&["Go"]) }
    );
    assert_eq!(acts[2], build(5, None));
    assert_eq!(acts[3], save("Go", None, false));
}

#[test]
fn picking_an_unknown_name_fails() {
    let mut c = cli();
    c.select_system = true;
    let acts = drive(&c, P, vec![RunEvent::Detected(flags(&["Go"])), RunEvent::Picked("Zig".to_string())]);
    assert_eq!(acts[2], RunAction::Finish(Err(YbuildError::Build("Selected system not found".to_string()))));
    assert_eq!(select_and_save_system(&vec![5, 13], "Zig"), Ok(13));
    assert_eq!(
        select_and_save_system(&vec![5], "Zig").unwrap_err().message(),
        "Build error: Selected system not found"
    );
}

#[test]
fn watching_records_then_watches() {
    let mut c = cli();
    c.watch = true;
    c.custom_command = Some("true".to_string());
    let acts = drive(&c, P, vec![RunEvent::Built(None), RunEvent::Done, RunEvent::Done]);
    assert_eq!(
        acts,
        vec![
            custom_build("true", None),
            save("Custom Command", Some("true"), false),
            RunAction::Watch(Choice::Custom("true".to_string())),
            RunAction::Finish(Ok(())),
        ]
    );
    assert!(!rerun_due(500_000_000));
    assert!(rerun_due(500_000_001));
}

#[test]
fn watching_reports_a_failed_first_build() {
    let mut c = cli();
    c.watch = true;
    let acts = drive(
        &c,
        P,
        vec![RunEvent::Config(None), RunEvent::Detected(flags(&["Zig"])), RunEvent::Failed("bad".to_string()), RunEvent::Done],
    );
    assert_eq!(acts[2], build(13, None));
    assert_eq!(acts[3], RunAction::Report("Build failed: bad".to_string()));
    assert_eq!(acts[4], RunAction::Watch(Choice::Known(13)));
}

#[test]
fn watching_records_a_chosen_command_quietly() {
    let mut c = cli();
    c.watch = true;
    let acts = drive(
        &c,
        P,
        vec![RunEvent::Config(None), RunEvent::Detected(flags(&["Just"])), RunEvent::Built(Some("just dev".to_string()))],
    );
    assert_eq!(acts[3], save("Custom Command", Some("just dev"), true));
}

#[test]
fn a_chosen_command_is_remembered_after_the_build() {
    let acts = drive(
        &cli(),
        P,
        vec![
            RunEvent::Config(None),
            RunEvent::Detected(flags(&["Just"])),
            RunEvent::Built(Some("just test".to_string())),
            RunEvent::Done,
        ],
    );
    assert_eq!(acts[3], save("Custom Command", Some("just test"), false));
    assert_eq!(acts[4], RunAction::Finish(Ok(())));
}

#[test]
fn systems_are_found_by_name() {
    assert_eq!(find_system("Rust"), Some(0));
    assert_eq!(find_system(".NET"), Some(14));
    assert_eq!(find_system("Custom Command"), None);
    assert_eq!(detected_indices(&vec![false, true, false, true]), vec![1, 3]);
    let mut many = vec![true; 20];
    many[0] = false;
    assert_eq!(detected_indices(&many).len(), 14);
    assert_eq!(Choice::Known(3).system(), System::CMake);
}
