use ybuild::command::{marker_files, Cmd, Event, Project};
use ybuild::systems::{detection_flags, get_systems, list_text, Detection, System};

fn project(names: &[&str]) -> Project {
    Project { present: names.iter().map(|s| s.to_string()).collect(), windows: false }
}

fn no_answers() -> Vec<Event> {
    get_systems().iter().map(|_| Event::Start).collect()
}

fn detected(p: &Project, answers: &Vec<Event>) -> Vec<&'static str> {
    let systems = get_systems();
    let flags = detection_flags(p, answers);
    assert_eq!(flags.len(), systems.len());
    systems.iter().zip(flags.iter()).filter(|(_, f)| **f).map(|(s, _)| s.name()).collect()
}

fn index_of(name: &str) -> usize {
    get_systems().iter().position(|s| s.name() == name).unwrap()
}

#[test]
fn detects_cargo_project() {
    assert_eq!(detected(&project(&["Cargo.toml", "src"]), &no_answers()), vec!["Rust"]);
}

#[test]
fn detects_makefile_project() {
    assert_eq!(detected(&project(&["Makefile"]), &no_answers()), vec!["Makefile"]);
}

#[test]
fn detects_nothing_in_empty_directory() {
    assert!(detected(&project(&[]), &no_answers()).is_empty());
}

#[test]
fn detects_every_matching_system_in_list_order() {
    let p = project(&["Makefile", "Cargo.toml", "Dockerfile", "justfile"]);
    assert_eq!(detected(&p, &no_answers()), vec!["Rust", "Makefile", "Just", "Docker"]);
}

#[test]
fn detects_javascript_by_lockfile_or_entry_file() {
    assert_eq!(detected(&project(&["yarn.lock"]), &no_answers()), vec!["JavaScript/TypeScript"]);
    assert_eq!(detected(&project(&["index.ts"]), &no_answers()), vec!["JavaScript/TypeScript"]);
    assert!(detected(&project(&["server.js"]), &no_answers()).is_empty());
}

#[test]
fn detects_other_manifests() {
    assert_eq!(detected(&project(&["go.mod"]), &no_answers()), vec!["Go"]);
    assert_eq!(detected(&project(&["Package.swift"]), &no_answers()), vec!["Swift"]);
    assert_eq!(detected(&project(&["pom.xml"]), &no_answers()), vec!["Maven"]);
    assert_eq!(detected(&project(&["build.gradle.kts"]), &no_answers()), vec!["Gradle"]);
    assert_eq!(detected(&project(&["build.zig"]), &no_answers()), vec!["Zig"]);
    assert_eq!(detected(&project(&["CMakeLists.txt"]), &no_answers()), vec!["CMake"]);
    assert_eq!(detected(&project(&["Justfile"]), &no_answers()), vec!["Just"]);
    assert_eq!(detected(&project(&["app.py"]), &no_answers()), vec!["Python"]);
}

#[test]
fn uv_is_detected_only_when_uv_runs() {
    let p = project(&["pyproject.toml"]);
    let uv = &get_systems()[index_of("uv")];
    assert_eq!(uv.detect(&p), Detection::Probe(Cmd { program: "uv".to_string(), args: vec!["--version".to_string()] }));
    let mut answers = no_answers();
    answers[index_of("uv")] = Event::Flag(true);
    assert_eq!(detected(&p, &answers), vec!["uv", "Python"]);
    answers[index_of("uv")] = Event::Flag(false);
    assert_eq!(detected(&p, &answers), vec!["Python"]);
    assert_eq!(uv.detect(&project(&["setup.py"])), Detection::Known(false));
}

#[test]
fn flutter_needs_a_flutter_section() {
    let p = project(&["pubspec.yaml"]);
    let flutter = &get_systems()[index_of("Flutter")];
    assert_eq!(flutter.detect(&p), Detection::ReadFile("pubspec.yaml".to_string()));
    let mut answers = no_answers();
    answers[index_of("Flutter")] = Event::File(Some("name: app\nflutter:\n  uses-material-design: true\n".to_string()));
    assert_eq!(detected(&p, &answers), vec!["Flutter"]);
    answers[index_of("Flutter")] = Event::File(Some("name: app\ndependencies:\n".to_string()));
    assert!(detected(&p, &answers).is_empty());
    answers[index_of("Flutter")] = Event::File(None);
    assert!(detected(&p, &answers).is_empty());
}

#[test]
fn dotnet_needs_a_project_or_solution_file() {
    let p = project(&[]);
    let dotnet = &get_systems()[index_of(".NET")];
    assert_eq!(dotnet.detect(&p), Detection::ListDir(".".to_string()));
    let mut answers = no_answers();
    answers[index_of(".NET")] = Event::Names(vec!["README.md".to_string(), "App.csproj".to_string()]);
    assert_eq!(detected(&p, &answers), vec![".NET"]);
    answers[index_of(".NET")] = Event::Names(vec!["Lib.fsproj".to_string()]);
    assert_eq!(detected(&p, &answers), vec![".NET"]);
    answers[index_of(".NET")] = Event::Names(vec!["All.sln".to_string()]);
    assert_eq!(detected(&p, &answers), vec![".NET"]);
    answers[index_of(".NET")] = Event::Names(vec!["notes.txt".to_string(), ".csproj".to_string()]);
    assert!(detected(&p, &answers).is_empty());
}

#[test]
fn missing_answers_count_as_not_detected() {
    let p = project(&["pubspec.yaml", "Cargo.toml"]);
    assert_eq!(detected(&p, &Vec::new()), vec!["Rust"]);
}

#[test]
fn known_systems_in_order() {
    let names: Vec<&str> = get_systems().iter().map(|s| s.name()).collect();
    assert_eq!(
        names,
        vec![
            "Rust",
            "Makefile",
            "Just",
            "CMake",
            "JavaScript/TypeScript",
            "Go",
            "uv",
            "Python",
            "Swift",
            "Flutter",
            "Docker",
            "Maven",
            "Gradle",
            "Zig",
            ".NET"
        ]
    );
    assert_eq!(get_systems()[0].description(), "Build and run Rust projects using Cargo");
}

#[test]
fn list_shows_every_system() {
    let text = list_text();
    assert!(text.starts_with("Supported build systems:\n  - Rust\n  - Makefile\n"));
    assert!(text.ends_with("  - Zig\n  - .NET\n"));
    assert_eq!(text.lines().count(), 16);
}

#[test]
fn custom_command_is_never_detected() {
    let c = System::Custom(ybuild::systems::custom::CustomBuild { command: "echo hi".to_string() });
    assert_eq!(c.detect(&project(&["Cargo.toml"])), Detection::Known(false));
    assert_eq!(c.name(), "Custom Command");
}

#[test]
fn marker_files_name_what_detection_reads() {
    let m = marker_files();
    for n in ["Cargo.toml", "Makefile", "justfile", "CMakeLists.txt", "build", "package.json", "go.mod", "pyproject.toml", ".venv", "pubspec.yaml", "build.zig", "server.js"] {
        assert!(m.contains(&n), "{}", n);
    }
}
