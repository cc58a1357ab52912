use vstd::prelude::*;
use crate::command::{Action, ActionV, Cmd, Project, cmd_v};
use crate::options::BuildOptions;
use crate::systems::actions_v;

verus! {

/// Gradle projects, driven through the project's wrapper script.
#[derive(Debug, Clone, Copy)]
pub struct GradleBuild;

/// `./gradlew test` or `./gradlew build`, then `./gradlew run` when running.
pub open spec fn gradle_plan(o: BuildOptions) -> Seq<ActionV> {
    let task = ActionV::Run(
        cmd_v(
            "./gradlew"@,
            seq![
                if o.test {
                    "test"@
                } else {
                    "build"@
                },
            ],
        ),
    );
    if o.run {
        seq![task, ActionV::Run(cmd_v("./gradlew"@, seq!["run"@]))]
    } else {
        seq![task]
    }
}

impl GradleBuild {
    pub fn name(&self) -> (r: &'static str)
        ensures
            r@ == "Gradle"@,
    {
        "Gradle"
    }

    pub fn description(&self) -> (r: &'static str)
        ensures
            r@ == "Build and run projects using Gradle"@,
    {
        "Build and run projects using Gradle"
    }

    /// A Groovy or Kotlin build script marks a Gradle project.
    pub fn detect(&self, p: &Project) -> (r: bool)
        ensures
            r == (p@.present.contains("build.gradle"@) || p@.present.contains("build.gradle.kts"@)),
    {
        p.has("build.gradle") || p.has("build.gradle.kts")
    }

    /// The commands for `o`.
    pub fn plan(&self, o: &BuildOptions) -> (r: Vec<Action>)
        ensures
            actions_v(r@) == gradle_plan(*o),
    {
        let task = if o.test {
            "test"
        } else {
            "build"
        };
        let mut r = vec![Action::Run(Cmd::new1("./gradlew", task))];
        if o.run {
            r.push(Action::Run(Cmd::new1("./gradlew", "run")));
        }
        assert(actions_v(r@) == gradle_plan(*o));
        r
    }
}

} // verus!
