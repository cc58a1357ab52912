use ybuild::command::{Action, Cmd, Event, Project};
use ybuild::options::BuildOptions;
use ybuild::systems::cmake::cmake_targets;
use ybuild::systems::javascript::{package_scripts, JavaScriptBuild};
use ybuild::systems::just::recipes_of;
use ybuild::systems::make::make_targets;
use ybuild::systems::python::{python_scripts, PythonBuild};
use ybuild::systems::{get_systems, Stage, System};

fn project(names: &[&str]) -> Project {
    Project { present: names.iter().map(|s| s.to_string()).collect(), windows: false }
}

fn cmd(line: &str) -> Cmd {
    let mut words = line.split_whitespace().map(|s| s.to_string());
    Cmd { program: words.next().unwrap(), args: words.collect() }
}

fn system(name: &str) -> System {
    get_systems().into_iter().find(|s| s.name() == name).unwrap()
}

fn opts(run: bool, test: bool, select: bool) -> BuildOptions {
    BuildOptions { run, release: false, test, select_system: false, select_command: select }
}

fn strings(v: &[&str]) -> Vec<String> {
    v.iter().map(|s| s.to_string()).collect()
}

/// Drives a build with the given answers, returning the actions in order.
fn drive(s: &System, o: &BuildOptions, p: &Project, answers: Vec<Event>) -> Vec<Action> {
    let mut out = Vec::new();
    let mut st = Stage::Begin;
    let mut ev = Event::Start;
    let mut answers = answers.into_iter();
    loop {
        let (next, act) = s.step(o, p, st, &ev);
        let done = matches!(act, Action::Finish(_));
        out.push(act);
        if done {
            return out;
        }
        st = next;
        ev = answers.next().unwrap_or(Event::Done);
    }
}

const MAKE_DB: &str = "# GNU Make 4.3\nall: main.o util.o\nmain.o: main.c\n.PHONY: all clean\nclean:\n\trm -f *.o\nCC = gcc\n%.o: %.c\ninstall : all\nall: extra\n";

#[test]
fn make_targets_are_read_from_the_rule_database() {
    assert_eq!(make_targets(MAKE_DB), strings(&["all", "clean", "install", "main.o"]));
    assert!(make_targets("").is_empty());
    assert_eq!(make_targets("b:\r\na:\r\n"), strings(&["a", "b"]));
}

#[test]
fn make_target_selection_is_remembered() {
    let acts = drive(
        &system("Makefile"),
        &opts(false, false, true),
        &project(&["Makefile"]),
        vec![Event::Text(MAKE_DB.to_string()), Event::Text("clean".to_string()), Event::Done],
    );
    assert_eq!(
        acts,
        vec![
            Action::Capture(cmd("make -pR")),
            Action::Ask { prompt: "Select make target".to_string(), options: strings(&["all", "clean", "install", "main.o"]) },
            Action::Run(cmd("make clean")),
            Action::Finish(Some("make clean".to_string())),
        ]
    );
}

#[test]
fn make_single_target_needs_no_question() {
    let acts = drive(
        &system("Makefile"),
        &opts(false, false, true),
        &project(&["Makefile"]),
        vec![Event::Text("hello: hello.c\n".to_string()), Event::Done],
    );
    assert_eq!(acts[1], Action::Run(cmd("make hello")));
    assert_eq!(acts[2], Action::Finish(Some("make hello".to_string())));
}

#[test]
fn make_run_falls_back_to_newest_binary() {
    let acts = drive(
        &system("Makefile"),
        &opts(true, true, false),
        &project(&["Makefile"]),
        vec![Event::Done, Event::Done, Event::Flag(false), Event::Done],
    );
    assert_eq!(
        acts,
        vec![
            Action::Run(cmd("make")),
            Action::Run(cmd("make test")),
            Action::Attempt(cmd("make run")),
            Action::RunNewestBinary(".".to_string()),
            Action::Finish(None),
        ]
    );
    let ok = drive(&system("Makefile"), &opts(true, false, false), &project(&["Makefile"]), vec![Event::Done, Event::Flag(true)]);
    assert_eq!(ok, vec![Action::Run(cmd("make")), Action::Attempt(cmd("make run")), Action::Finish(None)]);
}

const CMAKE_HELP: &str = "The following are some of the valid targets for this Makefile:\n... all (the default if no target is provided)\n... clean\n... myapp\n... clean\n";

#[test]
fn cmake_targets_are_read_from_the_help_listing() {
    assert_eq!(
        cmake_targets(CMAKE_HELP),
        strings(&["all (the default if no target is provided)", "clean", "myapp"])
    );
    let ninja = "The following targets are available:\n  app\n--- more\n\n  lib\n";
    assert_eq!(cmake_targets(ninja), strings(&["app", "lib"]));
}

#[test]
fn cmake_creates_the_build_tree_and_runs_the_newest_binary() {
    let acts = drive(&system("CMake"), &opts(true, false, false), &project(&["CMakeLists.txt"]), vec![]);
    assert_eq!(
        acts,
        vec![
            Action::MakeDir("build".to_string()),
            Action::Run(cmd("cmake -B build -DCMAKE_BUILD_TYPE=Debug")),
            Action::Run(cmd("cmake --build build")),
            Action::RunNewestBinary("build".to_string()),
            Action::Finish(None),
        ]
    );
}

#[test]
fn cmake_target_selection_is_remembered() {
    let acts = drive(
        &system("CMake"),
        &opts(false, false, true),
        &project(&["CMakeLists.txt", "build"]),
        vec![Event::Done, Event::Text(CMAKE_HELP.to_string()), Event::Text("myapp".to_string()), Event::Done],
    );
    assert_eq!(acts[0], Action::Run(cmd("cmake -B build -DCMAKE_BUILD_TYPE=Debug")));
    assert_eq!(acts[1], Action::Capture(cmd("cmake --build build --target help")));
    assert!(matches!(&acts[2], Action::Ask { prompt, .. } if prompt == "Select CMake target"));
    assert_eq!(acts[3], Action::Run(cmd("cmake --build build --target myapp")));
    assert_eq!(acts[4], Action::Finish(Some("cmake --build build --target myapp".to_string())));
}

#[test]
fn just_recipes_are_the_summary_words() {
    assert_eq!(recipes_of("build test\tlint\n"), strings(&["build", "test", "lint"]));
    let acts = drive(
        &system("Just"),
        &opts(false, false, true),
        &project(&["justfile"]),
        vec![Event::Text("build test\n".to_string()), Event::Text("test".to_string()), Event::Done],
    );
    assert_eq!(acts[0], Action::Capture(cmd("just --summary")));
    assert_eq!(acts[1], Action::Ask { prompt: "Select just recipe".to_string(), options: strings(&["build", "test"]) });
    assert_eq!(acts[2], Action::Run(cmd("just test")));
    assert_eq!(acts[3], Action::Finish(Some("just test".to_string())));
    let plain = drive(&system("Just"), &opts(true, false, false), &project(&["justfile"]), vec![]);
    assert_eq!(plain, vec![Action::Run(cmd("just run")), Action::Finish(None)]);
}

#[test]
fn python_uses_the_virtual_environment() {
    let py = PythonBuild;
    assert_eq!(py.interpreter(&project(&[])), "python3");
    assert_eq!(py.interpreter(&project(&[".venv"])), ".venv/bin/python");
    let win = Project { present: strings(&[".venv"]), windows: true };
    assert_eq!(py.interpreter(&win), ".venv\\Scripts\\python.exe");
}

#[test]
fn python_installs_requirements_then_runs_the_entry() {
    let acts = drive(
        &system("Python"),
        &opts(true, true, false),
        &project(&["requirements.txt", "app.py"]),
        vec![],
    );
    assert_eq!(
        acts,
        vec![
            Action::Run(cmd("python3 -m pytest")),
            Action::Run(cmd("python3 -m pip install -r requirements.txt")),
            Action::Interactive(cmd("python3 app.py")),
            Action::Finish(Some("python3 app.py".to_string())),
        ]
    );
}

#[test]
fn python_script_selection_offers_py_files() {
    assert_eq!(
        python_scripts(&strings(&["a.py", "README.md", "b.py", ".py", "c.pyc"])),
        strings(&["a.py", "b.py"])
    );
    let acts = drive(
        &system("Python"),
        &opts(false, false, true),
        &project(&["main.py"]),
        vec![Event::Names(strings(&["main.py", "tool.py"])), Event::Text("tool.py".to_string()), Event::Done],
    );
    assert_eq!(acts[0], Action::ListDir(".".to_string()));
    assert_eq!(acts[1], Action::Ask { prompt: "Select python script to run".to_string(), options: strings(&["main.py", "tool.py"]) });
    assert_eq!(acts[2], Action::Interactive(cmd("python3 tool.py")));
    assert_eq!(acts[3], Action::Finish(Some("python3 tool.py".to_string())));
}

#[test]
fn package_scripts_are_the_names_under_scripts() {
    let mut names = package_scripts(&Some("{\"name\":\"x\",\"scripts\":{\"dev\":\"vite\",\"build\":\"vite build\"}}".to_string()));
    names.sort();
    assert_eq!(names, strings(&["build", "dev"]));
    assert!(package_scripts(&Some("{\"name\":\"x\"}".to_string())).is_empty());
    assert!(package_scripts(&Some("not json".to_string())).is_empty());
    assert!(package_scripts(&None).is_empty());
}

#[test]
fn javascript_uses_the_manager_of_the_lockfile() {
    assert_eq!(JavaScriptBuild.managers(&project(&["yarn.lock", "bun.lock"])), strings(&["bun", "yarn"]));
    let acts = drive(
        &system("JavaScript/TypeScript"),
        &opts(true, false, false),
        &project(&["package.json", "yarn.lock"]),
        vec![Event::File(Some("{\"scripts\":{\"dev\":\"vite\"}}".to_string())), Event::Done],
    );
    assert_eq!(
        acts,
        vec![Action::ReadFile("package.json".to_string()), Action::Run(cmd("yarn run dev")), Action::Finish(None)]
    );
}

#[test]
fn javascript_asks_between_lockfiles() {
    let acts = drive(
        &system("JavaScript/TypeScript"),
        &opts(false, true, false),
        &project(&["package.json", "pnpm-lock.yaml", "package-lock.json"]),
        vec![Event::Text("pnpm".to_string()), Event::Done],
    );
    assert_eq!(
        acts,
        vec![
            Action::Ask {
                prompt: "Multiple lockfiles detected. Select package manager:".to_string(),
                options: strings(&["pnpm", "npm"])
            },
            Action::Run(cmd("pnpm test")),
            Action::Finish(None),
        ]
    );
}

#[test]
fn javascript_probes_installed_runtimes_without_lockfile() {
    let acts = drive(
        &system("JavaScript/TypeScript"),
        &opts(true, false, false),
        &project(&["index.js"]),
        vec![Event::Flag(false), Event::Flag(false), Event::File(None), Event::Done],
    );
    assert_eq!(
        acts,
        vec![
            Action::Probe(cmd("bun --version")),
            Action::Probe(cmd("deno --version")),
            Action::ReadFile("package.json".to_string()),
            Action::Run(cmd("node index.js")),
            Action::Finish(None),
        ]
    );
    let bun = drive(
        &system("JavaScript/TypeScript"),
        &opts(true, false, false),
        &project(&["bun.lockb"]),
        vec![Event::File(None), Event::Done],
    );
    assert_eq!(bun[1], Action::Run(cmd("bun run .")));
}

#[test]
fn javascript_script_selection_offers_package_scripts() {
    let acts = drive(
        &system("JavaScript/TypeScript"),
        &opts(false, false, true),
        &project(&["package.json", "package-lock.json"]),
        vec![
            Event::File(Some("{\"scripts\":{\"dev\":\"vite\",\"lint\":\"eslint .\"}}".to_string())),
            Event::Text("lint".to_string()),
            Event::Done,
        ],
    );
    assert_eq!(acts[0], Action::ReadFile("package.json".to_string()));
    match &acts[1] {
        Action::Ask { prompt, options } => {
            assert_eq!(prompt, "Select script to run");
            let mut o = options.clone();
            o.sort();
            assert_eq!(o, strings(&["dev", "lint"]));
        }
        other => panic!("{:?}", other),
    }
    assert_eq!(acts[2], Action::Run(cmd("npm run lint")));
    assert_eq!(acts[3], Action::Finish(None));
}

#[test]
fn javascript_script_selection_without_scripts_runs_nothing() {
    let acts = drive(
        &system("JavaScript/TypeScript"),
        &opts(false, false, true),
        &project(&["package.json", "package-lock.json", "index.js"]),
        vec![Event::File(Some("{\"name\":\"x\"}".to_string()))],
    );
    assert_eq!(acts, vec![Action::ReadFile("package.json".to_string()), Action::Finish(None)]);
}

#[test]
fn javascript_build_does_nothing() {
    let acts = drive(&system("JavaScript/TypeScript"), &opts(false, false, false), &project(&["package-lock.json"]), vec![]);
    assert_eq!(acts, vec![Action::Finish(None)]);
}
