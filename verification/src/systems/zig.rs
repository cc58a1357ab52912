use vstd::prelude::*;
use crate::command::{Action, ActionV, Cmd, Project, cmd_v};
use crate::options::{BuildOptions, verb_of};
use crate::systems::actions_v;

verus! {

/// Zig projects.
#[derive(Debug, Clone, Copy)]
pub struct ZigBuild;

/// `zig build <verb>`, with `-Doptimize ReleaseSafe` in release mode.
pub open spec fn zig_plan(o: BuildOptions) -> Seq<ActionV> {
    seq![
        ActionV::Run(
            cmd_v(
                "zig"@,
                if o.release {
                    seq!["build"@, verb_of(o), "-Doptimize"@, "ReleaseSafe"@]
                } else {
                    seq!["build"@, verb_of(o)]
                },
            ),
        ),
    ]
}

impl ZigBuild {
    pub fn name(&self) -> (r: &'static str)
        ensures
            r@ == "Zig"@,
    {
        "Zig"
    }

    pub fn description(&self) -> (r: &'static str)
        ensures
            r@ == "Build and run Zig projects"@,
    {
        "Build and run Zig projects"
    }

    /// A `build.zig` marks a Zig project.
    pub fn detect(&self, p: &Project) -> (r: bool)
        ensures
            r == p@.present.contains("build.zig"@),
    {
        p.has("build.zig")
    }

    /// The commands for `o`.
    pub fn plan(&self, o: &BuildOptions) -> (r: Vec<Action>)
        ensures
            actions_v(r@) == zig_plan(*o),
    {
        let verb = o.verb();
        let c = if o.release {
            Cmd::new4("zig", "build", verb, "-Doptimize", "ReleaseSafe")
        } else {
            Cmd::new2("zig", "build", verb)
        };
        let r = vec![Action::Run(c)];
        assert(actions_v(r@) == zig_plan(*o));
        r
    }
}

} // verus!
