use ybuild::command::{Action, Cmd, Event, Project};
use ybuild::options::BuildOptions;
use ybuild::systems::custom::CustomBuild;
use ybuild::systems::{get_systems, Stage, System};

fn project(names: &[&str]) -> Project {
    Project { present: names.iter().map(|s| s.to_string()).collect(), windows: false }
}

fn cmd(line: &str) -> Cmd {
    let mut words = line.split_whitespace().map(|s| s.to_string());
    Cmd { program: words.next().unwrap(), args: words.collect() }
}

fn system(name: &str) -> System {
    get_systems().into_iter().find(|s| s.name() == name).unwrap()
}

/// Runs a build to its end, answering every action with `Done`.
fn actions(s: &System, o: &BuildOptions, p: &Project) -> Vec<Action> {
    let mut out = Vec::new();
    let mut st = Stage::Begin;
    let mut ev = Event::Start;
    loop {
        let (next, act) = s.step(o, p, st, &ev);
        if let Action::Finish(_) = act {
            out.push(act);
            return out;
        }
        out.push(act);
        st = next;
        ev = Event::Done;
    }
}

fn opts(run: bool, release: bool, test: bool) -> BuildOptions {
    BuildOptions { run, release, test, select_system: false, select_command: false }
}

#[test]
fn verb_prefers_test_then_run() {
    assert_eq!(opts(false, false, false).verb(), "build");
    assert_eq!(opts(true, false, false).verb(), "run");
    assert_eq!(opts(true, false, true).verb(), "test");
}

#[test]
fn cargo_runs_on_the_terminal() {
    let p = project(&["Cargo.toml"]);
    assert_eq!(
        actions(&system("Rust"), &opts(true, true, false), &p),
        vec![Action::Interactive(cmd("cargo run --release")), Action::Finish(None)]
    );
    assert_eq!(
        actions(&system("Rust"), &opts(false, false, false), &p),
        vec![Action::Interactive(cmd("cargo build")), Action::Finish(None)]
    );
}

#[test]
fn go_builds_the_current_package() {
    assert_eq!(
        actions(&system("Go"), &opts(false, false, true), &project(&["go.mod"])),
        vec![Action::Run(cmd("go test .")), Action::Finish(None)]
    );
}

#[test]
fn zig_release_uses_release_safe() {
    assert_eq!(
        actions(&system("Zig"), &opts(true, true, false), &project(&["build.zig"])),
        vec![Action::Run(cmd("zig build run -Doptimize ReleaseSafe")), Action::Finish(None)]
    );
}

#[test]
fn swift_and_dotnet_pick_a_configuration() {
    let p = project(&[]);
    assert_eq!(
        actions(&system("Swift"), &opts(false, true, false), &p),
        vec![Action::Run(cmd("swift build -c release")), Action::Finish(None)]
    );
    assert_eq!(
        actions(&system(".NET"), &opts(true, false, false), &p),
        vec![Action::Run(cmd("dotnet run -c Debug")), Action::Finish(None)]
    );
}

#[test]
fn docker_builds_then_runs_the_image() {
    assert_eq!(
        actions(&system("Docker"), &opts(true, false, false), &project(&["Dockerfile"])),
        vec![
            Action::Run(cmd("docker build . -t app_image")),
            Action::Run(cmd("docker run -it --rm app_image")),
            Action::Finish(None)
        ]
    );
}

#[test]
fn maven_and_gradle_run_after_building() {
    let p = project(&[]);
    assert_eq!(
        actions(&system("Maven"), &opts(true, false, false), &p),
        vec![Action::Run(cmd("mvn install")), Action::Run(cmd("mvn exec:java")), Action::Finish(None)]
    );
    assert_eq!(
        actions(&system("Gradle"), &opts(false, false, true), &p),
        vec![Action::Run(cmd("./gradlew test")), Action::Finish(None)]
    );
}

#[test]
fn uv_runs_main_py_when_present() {
    assert_eq!(
        actions(&system("uv"), &opts(true, false, false), &project(&["pyproject.toml", "main.py"])),
        vec![Action::Run(cmd("uv run main.py")), Action::Finish(None)]
    );
    assert_eq!(
        actions(&system("uv"), &opts(true, false, false), &project(&["pyproject.toml"])),
        vec![Action::Run(cmd("uv run .")), Action::Finish(None)]
    );
    assert_eq!(
        actions(&system("uv"), &opts(false, false, false), &project(&["pyproject.toml"])),
        vec![Action::Run(cmd("uv sync")), Action::Finish(None)]
    );
}

#[test]
fn flutter_release_is_not_used_for_tests() {
    let p = project(&["pubspec.yaml"]);
    assert_eq!(
        actions(&system("Flutter"), &opts(false, true, true), &p),
        vec![Action::Run(cmd("flutter test")), Action::Finish(None)]
    );
    assert_eq!(
        actions(&system("Flutter"), &opts(true, true, false), &p),
        vec![Action::Run(cmd("flutter run --release")), Action::Finish(None)]
    );
}

#[test]
fn custom_command_runs_in_the_shell() {
    let s = System::Custom(CustomBuild { command: "make && ./a.out".to_string() });
    assert_eq!(
        actions(&s, &opts(false, false, false), &project(&[])),
        vec![
            Action::Run(Cmd { program: "sh".to_string(), args: vec!["-c".to_string(), "make && ./a.out".to_string()] }),
            Action::Finish(None)
        ]
    );
    let win = Project { present: vec![], windows: true };
    assert_eq!(
        actions(&s, &opts(false, false, false), &win),
        vec![
            Action::Run(Cmd { program: "cmd".to_string(), args: vec!["/C".to_string(), "make && ./a.out".to_string()] }),
            Action::Finish(None)
        ]
    );
    let blank = System::Custom(CustomBuild { command: "   ".to_string() });
    assert_eq!(actions(&blank, &opts(false, false, false), &project(&[])), vec![Action::Finish(None)]);
}

#[test]
fn a_failed_step_ends_the_build() {
    let s = system("Docker");
    let p = project(&["Dockerfile"]);
    let o = opts(true, false, false);
    let (st, _) = s.step(&o, &p, Stage::Begin, &Event::Start);
    let (st, act) = s.step(&o, &p, st, &Event::Flag(false));
    assert_eq!(act, Action::Finish(None));
    assert_eq!(st, Stage::Over);
}
