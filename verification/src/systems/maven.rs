use vstd::prelude::*;
use crate::command::{Action, ActionV, Cmd, Project, cmd_v};
use crate::options::BuildOptions;
use crate::systems::actions_v;

verus! {

/// Maven projects.
#[derive(Debug, Clone, Copy)]
pub struct MavenBuild;

/// `mvn test` or `mvn install`, then `mvn exec:java` when running.
pub open spec fn maven_plan(o: BuildOptions) -> Seq<ActionV> {
    let goal = ActionV::Run(
        cmd_v(
            "mvn"@,
            seq![
                if o.test {
                    "test"@
                } else {
                    "install"@
                },
            ],
        ),
    );
    if o.run {
        seq![goal, ActionV::Run(cmd_v("mvn"@, seq!["exec:java"@]))]
    } else {
        seq![goal]
    }
}

impl MavenBuild {
    pub fn name(&self) -> (r: &'static str)
        ensures
            r@ == "Maven"@,
    {
        "Maven"
    }

    pub fn description(&self) -> (r: &'static str)
        ensures
            r@ == "Build and run Java projects using Maven"@,
    {
        "Build and run Java projects using Maven"
    }

    /// A `pom.xml` marks a Maven project.
    pub fn detect(&self, p: &Project) -> (r: bool)
        ensures
            r == p@.present.contains("pom.xml"@),
    {
        p.has("pom.xml")
    }

    /// The commands for `o`.
    pub fn plan(&self, o: &BuildOptions) -> (r: Vec<Action>)
        ensures
            actions_v(r@) == maven_plan(*o),
    {
        let goal = if o.test {
            "test"
        } else {
            "install"
        };
        let mut r = vec![Action::Run(Cmd::new1("mvn", goal))];
        if o.run {
            r.push(Action::Run(Cmd::new1("mvn", "exec:java")));
        }
        assert(actions_v(r@) == maven_plan(*o));
        r
    }
}

} // verus!
