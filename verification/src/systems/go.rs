use vstd::prelude::*;
use crate::command::{Action, ActionV, Cmd, Project, cmd_v};
use crate::options::{BuildOptions, verb_of};
use crate::systems::actions_v;

verus! {

/// Go modules.
#[derive(Debug, Clone, Copy)]
pub struct GoBuild;

/// `go <verb> .`
pub open spec fn go_plan(o: BuildOptions) -> Seq<ActionV> {
    seq![ActionV::Run(cmd_v("go"@, seq![verb_of(o), "."@]))]
}

impl GoBuild {
    pub fn name(&self) -> (r: &'static str)
        ensures
            r@ == "Go"@,
    {
        "Go"
    }

    pub fn description(&self) -> (r: &'static str)
        ensures
            r@ == "Build and run Go projects"@,
    {
        "Build and run Go projects"
    }

    /// A `go.mod` marks a Go module.
    pub fn detect(&self, p: &Project) -> (r: bool)
        ensures
            r == p@.present.contains("go.mod"@),
    {
        p.has("go.mod")
    }

    /// The commands for `o`.
    pub fn plan(&self, o: &BuildOptions) -> (r: Vec<Action>)
        ensures
            actions_v(r@) == go_plan(*o),
    {
        let r = vec![Action::Run(Cmd::new2("go", o.verb(), "."))];
        assert(actions_v(r@) == go_plan(*o));
        r
    }
}

} // verus!
