use vstd::prelude::*;
use crate::command::{Action, ActionV, Cmd, CmdV, Event, Project, ProjectV, cmd_v, line_of};
use crate::options::BuildOptions;
use crate::systems::cmake::{CMakeBuild, CMakeStage, cmake_step_v};
use crate::systems::custom::{CustomBuild, custom_plan};
use crate::systems::docker::{DockerBuild, docker_plan};
use crate::systems::dotnet::{DotnetBuild, dotnet_confirm, dotnet_plan};
use crate::systems::flutter::{FlutterBuild, flutter_plan};
use crate::systems::go::{GoBuild, go_plan};
use crate::systems::gradle::{GradleBuild, gradle_plan};
use crate::systems::javascript::{JavaScriptBuild, JsStage, js_step_v};
use crate::systems::just::{JustBuild, JustStage, just_step_v};
use crate::systems::make::{MakeBuild, MakeStage, make_step_v};
use crate::systems::maven::{MavenBuild, maven_plan};
use crate::systems::python::{PythonBuild, PythonStage, python_step_v};
use crate::systems::rust::{RustBuild, rust_plan};
use crate::systems::swift::{SwiftBuild, swift_plan};
use crate::systems::uv::{UvBuild, uv_plan};
use crate::systems::zig::{ZigBuild, zig_plan};
use crate::text::contains_seq;

pub mod bun;
pub mod cmake;
pub mod custom;
pub mod dotnet;
pub mod flutter;
pub mod uv;
pub mod deno;
pub mod docker;
pub mod go;
pub mod gradle;
pub mod javascript;
pub mod just;
pub mod make;
pub mod maven;
pub mod node;
pub mod python;
pub mod rust;
pub mod swift;
pub mod zig;

verus! {

/// The views of a sequence of actions.
pub open spec fn actions_v(s: Seq<Action>) -> Seq<ActionV> {
    s.map_values(|a: Action| a@)
}

/// How far detection gets from the names that exist: a decision, or one
/// more thing for the program to look at.
#[derive(Debug, PartialEq, Eq)]
pub enum Detection {
    /// Detection is decided.
    Known(bool),
    /// Read this file and report its contents (`Event::File`).
    ReadFile(String),
    /// Run this command and report whether it succeeded (`Event::Flag`).
    Probe(Cmd),
    /// List the file names of this directory (`Event::Names`, empty when it
    /// cannot be listed).
    ListDir(String),
}

/// What a detection step is, over text.
pub enum DetectionV {
    Known(bool),
    ReadFile(Seq<char>),
    Probe(CmdV),
    ListDir(Seq<char>),
}

impl View for Detection {
    type V = DetectionV;

    open spec fn view(&self) -> DetectionV {
        match self {
            Detection::Known(b) => DetectionV::Known(*b),
            Detection::ReadFile(s) => DetectionV::ReadFile(s@),
            Detection::Probe(c) => DetectionV::Probe(c@),
            Detection::ListDir(s) => DetectionV::ListDir(s@),
        }
    }
}

/// The build systems the tool knows, and a command given by the user.
#[derive(Debug, PartialEq, Eq)]
pub enum System {
    Rust,
    Make,
    Just,
    CMake,
    JavaScript,
    Go,
    Uv,
    Python,
    Swift,
    Flutter,
    Docker,
    Maven,
    Gradle,
    Zig,
    Dotnet,
    Custom(CustomBuild),
}

/// The known build systems, in the order in which they are tried and listed.
pub open spec fn all_systems() -> Seq<System> {
    seq![
        System::Rust,
        System::Make,
        System::Just,
        System::CMake,
        System::JavaScript,
        System::Go,
        System::Uv,
        System::Python,
        System::Swift,
        System::Flutter,
        System::Docker,
        System::Maven,
        System::Gradle,
        System::Zig,
        System::Dotnet,
    ]
}

/// The name a build system is listed and remembered under.
pub open spec fn system_name(s: System) -> Seq<char> {
    match s {
        System::Rust => "Rust"@,
        System::Make => "Makefile"@,
        System::Just => "Just"@,
        System::CMake => "CMake"@,
        System::JavaScript => "JavaScript/TypeScript"@,
        System::Go => "Go"@,
        System::Uv => "uv"@,
        System::Python => "Python"@,
        System::Swift => "Swift"@,
        System::Flutter => "Flutter"@,
        System::Docker => "Docker"@,
        System::Maven => "Maven"@,
        System::Gradle => "Gradle"@,
        System::Zig => "Zig"@,
        System::Dotnet => ".NET"@,
        System::Custom(_) => "Custom Command"@,
    }
}

/// A one-line description of a build system.
pub open spec fn system_description(s: System) -> Seq<char> {
    match s {
        System::Rust => "Build and run Rust projects using Cargo"@,
        System::Make => "Build and run projects using Makefile"@,
        System::Just => "Build and run projects using the just command runner"@,
        System::CMake => "Build and run C/C++ projects using CMake"@,
        System::JavaScript => "Build and run projects using Node.js, Bun, or Deno"@,
        System::Go => "Build and run Go projects"@,
        System::Uv => "Build and run Python projects using the uv package manager"@,
        System::Python => "Run Python scripts and projects"@,
        System::Swift => "Build and run Swift projects"@,
        System::Flutter => "Build and run Flutter apps"@,
        System::Docker => "Build and run Docker images"@,
        System::Maven => "Build and run Java projects using Maven"@,
        System::Gradle => "Build and run projects using Gradle"@,
        System::Zig => "Build and run Zig projects"@,
        System::Dotnet => "Build and run .NET projects"@,
        System::Custom(_) => "Execute a manually specified command"@,
    }
}

/// The first look at a project: a decision from the names that exist, or
/// one more thing to find out.
pub open spec fn detect_v(s: System, p: ProjectV) -> DetectionV {
    let has = |n: Seq<char>| p.present.contains(n);
    match s {
        System::Rust => DetectionV::Known(has("Cargo.toml"@)),
        System::Make => DetectionV::Known(has("Makefile"@)),
        System::Just => DetectionV::Known(has("justfile"@) || has("Justfile"@)),
        System::CMake => DetectionV::Known(has("CMakeLists.txt"@)),
        System::JavaScript => DetectionV::Known(
            has("package.json"@) || has("bun.lockb"@) || has("bun.lock"@) || has("pnpm-lock.yaml"@)
                || has("yarn.lock"@) || has("package-lock.json"@) || has("index.js"@) || has(
                "main.ts"@,
            ) || has("index.ts"@),
        ),
        System::Go => DetectionV::Known(has("go.mod"@)),
        System::Uv => if has("pyproject.toml"@) {
            DetectionV::Probe(crate::command::cmd_v("uv"@, seq!["--version"@]))
        } else {
            DetectionV::Known(false)
        },
        System::Python => DetectionV::Known(
            has("requirements.txt"@) || has("setup.py"@) || has("pyproject.toml"@) || has(
                "main.py"@,
            ) || has("app.py"@),
        ),
        System::Swift => DetectionV::Known(has("Package.swift"@)),
        System::Flutter => if has("pubspec.yaml"@) {
            DetectionV::ReadFile("pubspec.yaml"@)
        } else {
            DetectionV::Known(false)
        },
        System::Docker => DetectionV::Known(has("Dockerfile"@)),
        System::Maven => DetectionV::Known(has("pom.xml"@)),
        System::Gradle => DetectionV::Known(has("build.gradle"@) || has("build.gradle.kts"@)),
        System::Zig => DetectionV::Known(has("build.zig"@)),
        System::Dotnet => DetectionV::ListDir("."@),
        System::Custom(_) => DetectionV::Known(false),
    }
}

/// What the answer to the second look decides: uv must run, `pubspec.yaml`
/// must mention `flutter:`, and the directory must hold a .NET file.
pub open spec fn confirm_v(s: System, ev: Event) -> bool {
    match s {
        System::Uv => match ev {
            Event::Flag(ok) => ok,
            _ => false,
        },
        System::Flutter => match ev {
            Event::File(Some(text)) => contains_seq(text@, "flutter:"@),
            _ => false,
        },
        System::Dotnet => dotnet_confirm(ev),
        _ => false,
    }
}

/// Whether a system is detected, given the answer to its second look when
/// it needs one.
pub open spec fn detected_v(s: System, p: ProjectV, ev: Event) -> bool {
    match detect_v(s, p) {
        DetectionV::Known(b) => b,
        _ => confirm_v(s, ev),
    }
}

/// Whether a system's commands are a fixed list.
pub open spec fn is_listed(s: System) -> bool {
    !(s is Make || s is Just || s is CMake || s is JavaScript || s is Python)
}

/// The fixed list of commands of a system that has one.
pub open spec fn plan_v(s: System, o: BuildOptions, p: ProjectV) -> Seq<ActionV> {
    match s {
        System::Rust => rust_plan(o),
        System::Go => go_plan(o),
        System::Uv => uv_plan(o, p.present),
        System::Swift => swift_plan(o),
        System::Flutter => flutter_plan(o),
        System::Docker => docker_plan(o),
        System::Maven => maven_plan(o),
        System::Gradle => gradle_plan(o),
        System::Zig => zig_plan(o),
        System::Dotnet => dotnet_plan(o),
        System::Custom(c) => custom_plan(c.command@, p.windows),
        _ => seq![],
    }
}

/// Where a build stands between actions.
#[derive(Debug, PartialEq, Eq)]
pub enum Stage {
    /// Nothing done yet.
    Begin,
    /// A fixed list of commands is running; the index of the next one.
    Listed(usize),
    Make(MakeStage),
    Just(JustStage),
    CMake(CMakeStage),
    Js(JsStage),
    Python(PythonStage),
    /// The build is over.
    Over,
}

/// The build ends with nothing to remember.
pub open spec fn stage_over(next: Stage, act: ActionV) -> bool {
    next is Over && act == ActionV::Finish(None)
}

/// One step through a fixed list of commands: each runs once the previous
/// one is done, and the build ends after the last.
pub open spec fn listed_step_v(plan: Seq<ActionV>, st: Stage, ev: Event, next: Stage, act: ActionV) -> bool {
    match st {
        Stage::Begin => if plan.len() == 0 {
            stage_over(next, act)
        } else {
            next == Stage::Listed(1) && act == plan[0]
        },
        Stage::Listed(i) => match ev {
            Event::Done => if i < plan.len() {
                next == Stage::Listed((i + 1) as usize) && act == plan[i as int]
            } else {
                stage_over(next, act)
            },
            _ => stage_over(next, act),
        },
        _ => stage_over(next, act),
    }
}

/// One step of a build with a system: the fixed list of a listed system, or
/// the steps of the system's own procedure, started from its beginning.
pub open spec fn step_v(
    s: System,
    o: BuildOptions,
    p: ProjectV,
    st: Stage,
    ev: Event,
    next: Stage,
    act: ActionV,
) -> bool {
    if is_listed(s) {
        listed_step_v(plan_v(s, o, p), st, ev, next, act)
    } else {
        match s {
            System::Make => match st {
                Stage::Begin => next matches Stage::Make(n) && make_step_v(o, MakeStage::Begin, ev, n, act),
                Stage::Make(m) => next matches Stage::Make(n) && make_step_v(o, m, ev, n, act),
                _ => stage_over(next, act),
            },
            System::Just => match st {
                Stage::Begin => next matches Stage::Just(n) && just_step_v(o, JustStage::Begin, ev, n, act),
                Stage::Just(m) => next matches Stage::Just(n) && just_step_v(o, m, ev, n, act),
                _ => stage_over(next, act),
            },
            System::CMake => match st {
                Stage::Begin => next matches Stage::CMake(n) && cmake_step_v(o, p.present, CMakeStage::Begin, ev, n, act),
                Stage::CMake(m) => next matches Stage::CMake(n) && cmake_step_v(o, p.present, m, ev, n, act),
                _ => stage_over(next, act),
            },
            System::JavaScript => match st {
                Stage::Begin => next matches Stage::Js(n) && js_step_v(o, p.present, JsStage::Begin, ev, n, act),
                Stage::Js(m) => next matches Stage::Js(n) && js_step_v(o, p.present, m, ev, n, act),
                _ => stage_over(next, act),
            },
            System::Python => match st {
                Stage::Begin => next matches Stage::Python(n) && python_step_v(o, p, PythonStage::Begin, ev, n, act),
                Stage::Python(m) => next matches Stage::Python(n) && python_step_v(o, p, m, ev, n, act),
                _ => stage_over(next, act),
            },
            _ => stage_over(next, act),
        }
    }
}

/// The known build systems, in the order in which they are tried and
/// listed.
pub fn get_systems() -> (r: Vec<System>)
    ensures
        r@ == all_systems(),
{
    let r = vec![
        System::Rust,
        System::Make,
        System::Just,
        System::CMake,
        System::JavaScript,
        System::Go,
        System::Uv,
        System::Python,
        System::Swift,
        System::Flutter,
        System::Docker,
        System::Maven,
        System::Gradle,
        System::Zig,
        System::Dotnet,
    ];
    assert(r@ == all_systems());
    r
}

fn over() -> (r: (Stage, Action))
    ensures
        stage_over(r.0, r.1@),
{
    (Stage::Over, Action::Finish(None))
}

impl System {
    /// The name the system is listed and remembered under.
    pub fn name(&self) -> (r: &'static str)
        ensures
            r@ == system_name(*self),
    {
        match self {
            System::Rust => RustBuild.name(),
            System::Make => MakeBuild.name(),
            System::Just => JustBuild.name(),
            System::CMake => CMakeBuild.name(),
            System::JavaScript => JavaScriptBuild.name(),
            System::Go => GoBuild.name(),
            System::Uv => UvBuild.name(),
            System::Python => PythonBuild.name(),
            System::Swift => SwiftBuild.name(),
            System::Flutter => FlutterBuild.name(),
            System::Docker => DockerBuild.name(),
            System::Maven => MavenBuild.name(),
            System::Gradle => GradleBuild.name(),
            System::Zig => ZigBuild.name(),
            System::Dotnet => DotnetBuild.name(),
            System::Custom(c) => c.name(),
        }
    }

    /// A one-line description of the system.
    pub fn description(&self) -> (r: &'static str)
        ensures
            r@ == system_description(*self),
    {
        match self {
            System::Rust => RustBuild.description(),
            System::Make => MakeBuild.description(),
            System::Just => JustBuild.description(),
            System::CMake => CMakeBuild.description(),
            System::JavaScript => JavaScriptBuild.description(),
            System::Go => GoBuild.description(),
            System::Uv => UvBuild.description(),
            System::Python => PythonBuild.description(),
            System::Swift => SwiftBuild.description(),
            System::Flutter => FlutterBuild.description(),
            System::Docker => DockerBuild.description(),
            System::Maven => MavenBuild.description(),
            System::Gradle => GradleBuild.description(),
            System::Zig => ZigBuild.description(),
            System::Dotnet => DotnetBuild.description(),
            System::Custom(c) => c.description(),
        }
    }

    /// The first look at a project.
    pub fn detect(&self, p: &Project) -> (r: Detection)
        ensures
            r@ == detect_v(*self, p@),
    {
        match self {
            System::Rust => Detection::Known(RustBuild.detect(p)),
            System::Make => Detection::Known(MakeBuild.detect(p)),
            System::Just => Detection::Known(JustBuild.detect(p)),
            System::CMake => Detection::Known(CMakeBuild.detect(p)),
            System::JavaScript => Detection::Known(JavaScriptBuild.detect(p)),
            System::Go => Detection::Known(GoBuild.detect(p)),
            System::Uv => UvBuild.detect(p),
            System::Python => Detection::Known(PythonBuild.detect(p)),
            System::Swift => Detection::Known(SwiftBuild.detect(p)),
            System::Flutter => FlutterBuild.detect(p),
            System::Docker => Detection::Known(DockerBuild.detect(p)),
            System::Maven => Detection::Known(MavenBuild.detect(p)),
            System::Gradle => Detection::Known(GradleBuild.detect(p)),
            System::Zig => Detection::Known(ZigBuild.detect(p)),
            System::Dotnet => DotnetBuild.detect(),
            System::Custom(c) => Detection::Known(c.detect()),
        }
    }

    /// What the answer to the second look decides.
    pub fn confirm(&self, ev: &Event) -> (r: bool)
        ensures
            r == confirm_v(*self, *ev),
    {
        match self {
            System::Uv => UvBuild.confirm(ev),
            System::Flutter => FlutterBuild.confirm(ev),
            System::Dotnet => DotnetBuild.confirm(ev),
            _ => false,
        }
    }

    /// The fixed list of commands of a listed system.
    fn plan(&self, o: &BuildOptions, p: &Project) -> (r: Vec<Action>)
        ensures
            actions_v(r@) == plan_v(*self, *o, p@),
    {
        match self {
            System::Rust => RustBuild.plan(o),
            System::Go => GoBuild.plan(o),
            System::Uv => UvBuild.plan(o, p),
            System::Swift => SwiftBuild.plan(o),
            System::Flutter => FlutterBuild.plan(o),
            System::Docker => DockerBuild.plan(o),
            System::Maven => MavenBuild.plan(o),
            System::Gradle => GradleBuild.plan(o),
            System::Zig => ZigBuild.plan(o),
            System::Dotnet => DotnetBuild.plan(o),
            System::Custom(c) => c.plan(p),
            _ => {
                let r: Vec<Action> = Vec::new();
                assert(actions_v(r@) == plan_v(*self, *o, p@));
                r
            },
        }
    }

    fn listed_step(&self, o: &BuildOptions, p: &Project, st: Stage, ev: &Event) -> (r: (Stage, Action))
        ensures
            listed_step_v(plan_v(*self, *o, p@), st, *ev, r.0, r.1@),
    {
        let mut plan = self.plan(o, p);
        let ghost pv = actions_v(plan@);
        match st {
            Stage::Begin => if plan.len() == 0 {
                over()
            } else {
                let a = plan.remove(0);
                (Stage::Listed(1), a)
            },
            Stage::Listed(i) => match ev {
                Event::Done => if i < plan.len() {
                    let a = plan.remove(i);
                    (Stage::Listed(i + 1), a)
                } else {
                    over()
                },
                _ => over(),
            },
            _ => over(),
        }
    }

    /// The next action of a build with this system, given where it stands
    /// and what the last action gave.
    pub fn step(&self, o: &BuildOptions, p: &Project, st: Stage, ev: &Event) -> (r: (Stage, Action))
        ensures
            step_v(*self, *o, p@, st, *ev, r.0, r.1@),
    {
        match self {
            System::Make => {
                let inner = match st {
                    Stage::Begin => MakeStage::Begin,
                    Stage::Make(m) => m,
                    _ => {
                        return over();
                    },
                };
                let (n, a) = MakeBuild.step(o, inner, ev);
                (Stage::Make(n), a)
            },
            System::Just => {
                let inner = match st {
                    Stage::Begin => JustStage::Begin,
                    Stage::Just(m) => m,
                    _ => {
                        return over();
                    },
                };
                let (n, a) = JustBuild.step(o, inner, ev);
                (Stage::Just(n), a)
            },
            System::CMake => {
                let inner = match st {
                    Stage::Begin => CMakeStage::Begin,
                    Stage::CMake(m) => m,
                    _ => {
                        return over();
                    },
                };
                let (n, a) = CMakeBuild.step(o, p, inner, ev);
                (Stage::CMake(n), a)
            },
            System::JavaScript => {
                let inner = match st {
                    Stage::Begin => JsStage::Begin,
                    Stage::Js(m) => m,
                    _ => {
                        return over();
                    },
                };
                let (n, a) = JavaScriptBuild.step(o, p, inner, ev);
                (Stage::Js(n), a)
            },
            System::Python => {
                let inner = match st {
                    Stage::Begin => PythonStage::Begin,
                    Stage::Python(m) => m,
                    _ => {
                        return over();
                    },
                };
                let (n, a) = PythonBuild.step(o, p, inner, ev);
                (Stage::Python(n), a)
            },
            _ => self.listed_step(o, p, st, ev),
        }
    }
}

/// The answer given to the second look at the `i`-th known system; a
/// missing answer counts as none.
pub open spec fn answer_at(answers: Seq<Event>, i: int) -> Event {
    if 0 <= i < answers.len() {
        answers[i]
    } else {
        Event::Start
    }
}

/// Whether each known system is detected in a project, in the order of the
/// list, given the answers to the second looks (one per known system, in
/// the same order; ignored where the first look decides).
pub fn detection_flags(p: &Project, answers: &Vec<Event>) -> (r: Vec<bool>)
    ensures
        r@.len() == all_systems().len(),
        forall|i: int|
            0 <= i < all_systems().len() ==> #[trigger] r@[i] == detected_v(
                all_systems()[i],
                p@,
                answer_at(answers@, i),
            ),
{
    let systems = get_systems();
    let none = Event::Start;
    let mut r: Vec<bool> = Vec::new();
    let mut i: usize = 0;
    while i < systems.len()
        invariant
            i <= systems.len(),
            systems@ == all_systems(),
            none == Event::Start,
            r@.len() == i,
            forall|j: int|
                0 <= j < i ==> #[trigger] r@[j] == detected_v(
                    all_systems()[j],
                    p@,
                    answer_at(answers@, j),
                ),
        decreases systems.len() - i,
    {
        let ev = if i < answers.len() {
            &answers[i]
        } else {
            &none
        };
        let found = match systems[i].detect(p) {
            Detection::Known(b) => b,
            _ => systems[i].confirm(ev),
        };
        r.push(found);
        i = i + 1;
    }
    r
}

/// The lines listing the first `n` known systems.
pub open spec fn listed_names(n: int) -> Seq<char>
    decreases n,
{
    if n <= 0 {
        seq![]
    } else {
        listed_names(n - 1) + "  - "@ + system_name(all_systems()[n - 1]) + "\n"@
    }
}

/// The list of supported systems, as written to standard output: a heading,
/// then one line per known system, in order.
pub fn list_text() -> (r: String)
    ensures
        r@ == "Supported build systems:\n"@ + listed_names(all_systems().len() as int),
{
    let systems = get_systems();
    let mut r = "Supported build systems:\n".to_owned();
    let ghost head = r@;
    let mut i: usize = 0;
    while i < systems.len()
        invariant
            i <= systems.len(),
            systems@ == all_systems(),
            r@ == head + listed_names(i as int),
        decreases systems.len() - i,
    {
        r.append("  - ");
        r.append(systems[i].name());
        r.append("\n");
        i = i + 1;
    }
    r
}

/// A target picked for a Makefile build is built, and `make <target>` is
/// what the directory remembers.
pub proof fn law_make_pick_remembered(
    o: BuildOptions,
    p: ProjectV,
    t: String,
    next: Stage,
    act: ActionV,
    next2: Stage,
    act2: ActionV,
)
    requires
        step_v(System::Make, o, p, Stage::Make(MakeStage::Choosing), Event::Text(t), next, act),
        step_v(System::Make, o, p, next, Event::Done, next2, act2),
    ensures
        act == ActionV::Run(cmd_v("make"@, seq![t@])),
        act2 == ActionV::Finish(Some(line_of(cmd_v("make"@, seq![t@])))),
{
}

/// A recipe picked for a just build runs, and `just <recipe>` is what the
/// directory remembers.
pub proof fn law_just_pick_remembered(
    o: BuildOptions,
    p: ProjectV,
    t: String,
    next: Stage,
    act: ActionV,
    next2: Stage,
    act2: ActionV,
)
    requires
        step_v(System::Just, o, p, Stage::Just(JustStage::Choosing), Event::Text(t), next, act),
        step_v(System::Just, o, p, next, Event::Done, next2, act2),
    ensures
        act == ActionV::Run(cmd_v("just"@, seq![t@])),
        act2 == ActionV::Finish(Some(line_of(cmd_v("just"@, seq![t@])))),
{
}

/// A target picked for a CMake build is built, and the command that built
/// it is what the directory remembers.
pub proof fn law_cmake_pick_remembered(
    o: BuildOptions,
    p: ProjectV,
    t: String,
    next: Stage,
    act: ActionV,
    next2: Stage,
    act2: ActionV,
)
    requires
        step_v(System::CMake, o, p, Stage::CMake(CMakeStage::Choosing), Event::Text(t), next, act),
        step_v(System::CMake, o, p, next, Event::Done, next2, act2),
    ensures
        act == ActionV::Run(cmd_v("cmake"@, seq!["--build"@, "build"@, "--target"@, t@])),
        act2 == ActionV::Finish(
            Some(line_of(cmd_v("cmake"@, seq!["--build"@, "build"@, "--target"@, t@]))),
        ),
{
}

/// A script picked for a Python run runs with the project's interpreter,
/// and that command is what the directory remembers.
pub proof fn law_python_pick_remembered(
    o: BuildOptions,
    p: ProjectV,
    t: String,
    next: Stage,
    act: ActionV,
    next2: Stage,
    act2: ActionV,
)
    requires
        step_v(System::Python, o, p, Stage::Python(PythonStage::Choosing), Event::Text(t), next, act),
        step_v(System::Python, o, p, next, Event::Done, next2, act2),
    ensures
        act == ActionV::Interactive(cmd_v(crate::systems::python::python_exe(p), seq![t@])),
        act2 == ActionV::Finish(
            Some(line_of(cmd_v(crate::systems::python::python_exe(p), seq![t@]))),
        ),
{
}

/// Which files mark each known build system. A system is detected exactly
/// when its marker files are present; uv additionally needs `uv --version`
/// to succeed, Flutter needs `pubspec.yaml` to mention `flutter:`, and .NET
/// needs a solution or project file among the directory's names.
pub proof fn law_detection_markers(p: ProjectV, ev: Event)
    ensures
        detected_v(System::Rust, p, ev) == p.present.contains("Cargo.toml"@),
        detected_v(System::Make, p, ev) == p.present.contains("Makefile"@),
        detected_v(System::Just, p, ev) == (p.present.contains("justfile"@) || p.present.contains(
            "Justfile"@,
        )),
        detected_v(System::CMake, p, ev) == p.present.contains("CMakeLists.txt"@),
        detected_v(System::JavaScript, p, ev) == (p.present.contains("package.json"@)
            || p.present.contains("bun.lockb"@) || p.present.contains("bun.lock"@)
            || p.present.contains("pnpm-lock.yaml"@) || p.present.contains("yarn.lock"@)
            || p.present.contains("package-lock.json"@) || p.present.contains("index.js"@)
            || p.present.contains("main.ts"@) || p.present.contains("index.ts"@)),
        detected_v(System::Go, p, ev) == p.present.contains("go.mod"@),
        detected_v(System::Uv, p, ev) == (p.present.contains("pyproject.toml"@) && ev == Event::Flag(
            true,
        )),
        detected_v(System::Python, p, ev) == (p.present.contains("requirements.txt"@)
            || p.present.contains("setup.py"@) || p.present.contains("pyproject.toml"@)
            || p.present.contains("main.py"@) || p.present.contains("app.py"@)),
        detected_v(System::Swift, p, ev) == p.present.contains("Package.swift"@),
        detected_v(System::Flutter, p, ev) == (p.present.contains("pubspec.yaml"@) && exists|
            text: String,
        | ev == Event::File(Some(text)) && contains_seq(text@, "flutter:"@)),
        detected_v(System::Docker, p, ev) == p.present.contains("Dockerfile"@),
        detected_v(System::Maven, p, ev) == p.present.contains("pom.xml"@),
        detected_v(System::Gradle, p, ev) == (p.present.contains("build.gradle"@)
            || p.present.contains("build.gradle.kts"@)),
        detected_v(System::Zig, p, ev) == p.present.contains("build.zig"@),
        detected_v(System::Dotnet, p, ev) == exists|ns: Vec<String>|
            ev == Event::Names(ns) && crate::systems::dotnet::has_dotnet_file(crate::command::strs(ns@)),
{
    match ev {
        Event::File(Some(text)) => {
            assert(ev == Event::File(Some(text)));
        },
        Event::Names(ns) => {
            assert(ev == Event::Names(ns));
        },
        _ => {},
    }
}

/// Building with `-x` (and without `-t`) ends by running the program:
/// `cargo run`, `go run .`, `uv run main.py` (or `uv run .` without a
/// `main.py`), `swift run`, `flutter run`, `docker run -it --rm app_image`
/// after building the image, `mvn exec:java` after `mvn install`,
/// `./gradlew run` after `./gradlew build`, `zig build run` and `dotnet run`.
/// A release build adds each system's release flag.
pub proof fn law_listed_run_plans(o: BuildOptions, p: ProjectV)
    requires
        o.run,
        !o.test,
    ensures
        !o.release ==> plan_v(System::Rust, o, p) == seq![ActionV::Interactive(cmd_v("cargo"@, seq!["run"@]))],
        o.release ==> plan_v(System::Rust, o, p) == seq![
            ActionV::Interactive(cmd_v("cargo"@, seq!["run"@, "--release"@])),
        ],
        plan_v(System::Go, o, p) == seq![ActionV::Run(cmd_v("go"@, seq!["run"@, "."@]))],
        p.present.contains("main.py"@) ==> plan_v(System::Uv, o, p) == seq![
            ActionV::Run(cmd_v("uv"@, seq!["run"@, "main.py"@])),
        ],
        !p.present.contains("main.py"@) ==> plan_v(System::Uv, o, p) == seq![
            ActionV::Run(cmd_v("uv"@, seq!["run"@, "."@])),
        ],
        o.release ==> plan_v(System::Swift, o, p) == seq![
            ActionV::Run(cmd_v("swift"@, seq!["run"@, "-c"@, "release"@])),
        ],
        !o.release ==> plan_v(System::Swift, o, p) == seq![
            ActionV::Run(cmd_v("swift"@, seq!["run"@, "-c"@, "debug"@])),
        ],
        o.release ==> plan_v(System::Flutter, o, p) == seq![
            ActionV::Run(cmd_v("flutter"@, seq!["run"@, "--release"@])),
        ],
        !o.release ==> plan_v(System::Flutter, o, p) == seq![ActionV::Run(cmd_v("flutter"@, seq!["run"@]))],
        plan_v(System::Docker, o, p) == seq![
            ActionV::Run(cmd_v("docker"@, seq!["build"@, "."@, "-t"@, "app_image"@])),
            ActionV::Run(cmd_v("docker"@, seq!["run"@, "-it"@, "--rm"@, "app_image"@])),
        ],
        plan_v(System::Maven, o, p) == seq![
            ActionV::Run(cmd_v("mvn"@, seq!["install"@])),
            ActionV::Run(cmd_v("mvn"@, seq!["exec:java"@])),
        ],
        plan_v(System::Gradle, o, p) == seq![
            ActionV::Run(cmd_v("./gradlew"@, seq!["build"@])),
            ActionV::Run(cmd_v("./gradlew"@, seq!["run"@])),
        ],
        o.release ==> plan_v(System::Zig, o, p) == seq![
            ActionV::Run(cmd_v("zig"@, seq!["build"@, "run"@, "-Doptimize"@, "ReleaseSafe"@])),
        ],
        !o.release ==> plan_v(System::Zig, o, p) == seq![ActionV::Run(cmd_v("zig"@, seq!["build"@, "run"@]))],
        o.release ==> plan_v(System::Dotnet, o, p) == seq![
            ActionV::Run(cmd_v("dotnet"@, seq!["run"@, "-c"@, "Release"@])),
        ],
        !o.release ==> plan_v(System::Dotnet, o, p) == seq![
            ActionV::Run(cmd_v("dotnet"@, seq!["run"@, "-c"@, "Debug"@])),
        ],
{
}

/// Testing with `-t` runs each listed system's tests: `cargo test`,
/// `go test .`, `uv run pytest`, `swift test`, `flutter test` (never with
/// `--release`), `mvn test` and `./gradlew test` (then the program when
/// `-x` is given too), `zig build test` and `dotnet test`; Docker has no
/// test step and builds the image as usual. A release build adds each
/// system's release flag.
pub proof fn law_listed_test_plans(o: BuildOptions, p: ProjectV)
    requires
        o.test,
    ensures
        !o.release ==> plan_v(System::Rust, o, p) == seq![ActionV::Interactive(cmd_v("cargo"@, seq!["test"@]))],
        o.release ==> plan_v(System::Rust, o, p) == seq![
            ActionV::Interactive(cmd_v("cargo"@, seq!["test"@, "--release"@])),
        ],
        plan_v(System::Go, o, p) == seq![ActionV::Run(cmd_v("go"@, seq!["test"@, "."@]))],
        plan_v(System::Uv, o, p) == seq![ActionV::Run(cmd_v("uv"@, seq!["run"@, "pytest"@]))],
        o.release ==> plan_v(System::Swift, o, p) == seq![
            ActionV::Run(cmd_v("swift"@, seq!["test"@, "-c"@, "release"@])),
        ],
        !o.release ==> plan_v(System::Swift, o, p) == seq![
            ActionV::Run(cmd_v("swift"@, seq!["test"@, "-c"@, "debug"@])),
        ],
        plan_v(System::Flutter, o, p) == seq![ActionV::Run(cmd_v("flutter"@, seq!["test"@]))],
        !o.run ==> plan_v(System::Docker, o, p) == seq![
            ActionV::Run(cmd_v("docker"@, seq!["build"@, "."@, "-t"@, "app_image"@])),
        ],
        !o.run ==> plan_v(System::Maven, o, p) == seq![ActionV::Run(cmd_v("mvn"@, seq!["test"@]))],
        o.run ==> plan_v(System::Maven, o, p) == seq![
            ActionV::Run(cmd_v("mvn"@, seq!["test"@])),
            ActionV::Run(cmd_v("mvn"@, seq!["exec:java"@])),
        ],
        !o.run ==> plan_v(System::Gradle, o, p) == seq![ActionV::Run(cmd_v("./gradlew"@, seq!["test"@]))],
        o.run ==> plan_v(System::Gradle, o, p) == seq![
            ActionV::Run(cmd_v("./gradlew"@, seq!["test"@])),
            ActionV::Run(cmd_v("./gradlew"@, seq!["run"@])),
        ],
        o.release ==> plan_v(System::Zig, o, p) == seq![
            ActionV::Run(cmd_v("zig"@, seq!["build"@, "test"@, "-Doptimize"@, "ReleaseSafe"@])),
        ],
        !o.release ==> plan_v(System::Zig, o, p) == seq![ActionV::Run(cmd_v("zig"@, seq!["build"@, "test"@]))],
        o.release ==> plan_v(System::Dotnet, o, p) == seq![
            ActionV::Run(cmd_v("dotnet"@, seq!["test"@, "-c"@, "Release"@])),
        ],
        !o.release ==> plan_v(System::Dotnet, o, p) == seq![
            ActionV::Run(cmd_v("dotnet"@, seq!["test"@, "-c"@, "Debug"@])),
        ],
{
}

/// A plain build (neither `-x` nor `-t`) runs one build command per listed
/// system and never the program: `cargo build`, `go build .`, `uv sync`,
/// `swift build`, `flutter build`, `docker build . -t app_image`,
/// `mvn install`, `./gradlew build`, `zig build build` and `dotnet build`.
/// A release build adds each system's release flag.
pub proof fn law_listed_build_plans(o: BuildOptions, p: ProjectV)
    requires
        !o.run,
        !o.test,
    ensures
        !o.release ==> plan_v(System::Rust, o, p) == seq![ActionV::Interactive(cmd_v("cargo"@, seq!["build"@]))],
        o.release ==> plan_v(System::Rust, o, p) == seq![
            ActionV::Interactive(cmd_v("cargo"@, seq!["build"@, "--release"@])),
        ],
        plan_v(System::Go, o, p) == seq![ActionV::Run(cmd_v("go"@, seq!["build"@, "."@]))],
        plan_v(System::Uv, o, p) == seq![ActionV::Run(cmd_v("uv"@, seq!["sync"@]))],
        o.release ==> plan_v(System::Swift, o, p) == seq![
            ActionV::Run(cmd_v("swift"@, seq!["build"@, "-c"@, "release"@])),
        ],
        !o.release ==> plan_v(System::Swift, o, p) == seq![
            ActionV::Run(cmd_v("swift"@, seq!["build"@, "-c"@, "debug"@])),
        ],
        o.release ==> plan_v(System::Flutter, o, p) == seq![
            ActionV::Run(cmd_v("flutter"@, seq!["build"@, "--release"@])),
        ],
        !o.release ==> plan_v(System::Flutter, o, p) == seq![ActionV::Run(cmd_v("flutter"@, seq!["build"@]))],
        plan_v(System::Docker, o, p) == seq![
            ActionV::Run(cmd_v("docker"@, seq!["build"@, "."@, "-t"@, "app_image"@])),
        ],
        plan_v(System::Maven, o, p) == seq![ActionV::Run(cmd_v("mvn"@, seq!["install"@]))],
        plan_v(System::Gradle, o, p) == seq![ActionV::Run(cmd_v("./gradlew"@, seq!["build"@]))],
        o.release ==> plan_v(System::Zig, o, p) == seq![
            ActionV::Run(cmd_v("zig"@, seq!["build"@, "build"@, "-Doptimize"@, "ReleaseSafe"@])),
        ],
        !o.release ==> plan_v(System::Zig, o, p) == seq![ActionV::Run(cmd_v("zig"@, seq!["build"@, "build"@]))],
        o.release ==> plan_v(System::Dotnet, o, p) == seq![
            ActionV::Run(cmd_v("dotnet"@, seq!["build"@, "-c"@, "Release"@])),
        ],
        !o.release ==> plan_v(System::Dotnet, o, p) == seq![
            ActionV::Run(cmd_v("dotnet"@, seq!["build"@, "-c"@, "Debug"@])),
        ],
{
}

/// A custom command runs as one shell command line: `sh -c` with the whole
/// command, or `cmd /C` on Windows; a blank command runs nothing.
pub proof fn law_custom_plan(c: CustomBuild, o: BuildOptions, p: ProjectV)
    ensures
        crate::text::words(c.command@).len() > 0 && !p.windows ==> plan_v(System::Custom(c), o, p) == seq![
            ActionV::Run(cmd_v("sh"@, seq!["-c"@, c.command@])),
        ],
        crate::text::words(c.command@).len() > 0 && p.windows ==> plan_v(System::Custom(c), o, p) == seq![
            ActionV::Run(cmd_v("cmd"@, seq!["/C"@, c.command@])),
        ],
        crate::text::words(c.command@).len() == 0 ==> plan_v(System::Custom(c), o, p) == Seq::<ActionV>::empty(),
{
}

} // verus!
