use vstd::prelude::*;
use crate::command::{Action, ActionV, Cmd, Project, cmd_v};
use crate::options::BuildOptions;
use crate::systems::actions_v;

verus! {

/// Projects run with Bun.
#[derive(Debug, Clone, Copy)]
pub struct BunBuild;

/// `bun test`, `bun run .` or `bun run build`.
pub open spec fn bun_plan(o: BuildOptions) -> Seq<ActionV> {
    seq![
        ActionV::Run(
            cmd_v(
                "bun"@,
                if o.test {
                    seq!["test"@]
                } else if o.run {
                    seq!["run"@, "."@]
                } else {
                    seq!["run"@, "build"@]
                },
            ),
        ),
    ]
}

impl BunBuild {
    pub fn name(&self) -> (r: &'static str)
        ensures
            r@ == "Bun"@,
    {
        "Bun"
    }

    /// A Bun lockfile or `bunfig.toml` marks a Bun project.
    pub fn detect(&self, p: &Project) -> (r: bool)
        ensures
            r == (p@.present.contains("bun.lockb"@) || p@.present.contains("bunfig.toml"@)),
    {
        p.has("bun.lockb") || p.has("bunfig.toml")
    }

    /// The commands for `o`.
    pub fn plan(&self, o: &BuildOptions) -> (r: Vec<Action>)
        ensures
            actions_v(r@) == bun_plan(*o),
    {
        let c = if o.test {
            Cmd::new1("bun", "test")
        } else if o.run {
            Cmd::new2("bun", "run", ".")
        } else {
            Cmd::new2("bun", "run", "build")
        };
        let r = vec![Action::Run(c)];
        assert(actions_v(r@) == bun_plan(*o));
        r
    }
}

} // verus!
