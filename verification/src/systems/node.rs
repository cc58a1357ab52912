use vstd::prelude::*;
use crate::command::{Action, ActionV, Cmd, Project, cmd_v};
use crate::options::BuildOptions;
use crate::systems::actions_v;

verus! {

/// Node.js projects driven through their package scripts.
#[derive(Debug, Clone, Copy)]
pub struct NodeBuild;

/// The package manager a lockfile names; npm when there is none.
pub open spec fn node_manager(present: Seq<Seq<char>>) -> Seq<char> {
    if present.contains("pnpm-lock.yaml"@) {
        "pnpm"@
    } else if present.contains("yarn.lock"@) {
        "yarn"@
    } else {
        "npm"@
    }
}

/// Tests and builds go through the `test` and `build` scripts; running
/// starts `node .` when there is an entry file, else the `start` script.
pub open spec fn node_plan(o: BuildOptions, present: Seq<Seq<char>>) -> Seq<ActionV> {
    let pm = node_manager(present);
    if o.test {
        seq![ActionV::Run(cmd_v(pm, seq!["run"@, "test"@]))]
    } else if o.run {
        if present.contains("main.js"@) || present.contains("index.js"@) {
            seq![ActionV::Run(cmd_v("node"@, seq!["."@]))]
        } else {
            seq![ActionV::Run(cmd_v(pm, seq!["run"@, "start"@]))]
        }
    } else {
        seq![ActionV::Run(cmd_v(pm, seq!["run"@, "build"@]))]
    }
}

impl NodeBuild {
    pub fn name(&self) -> (r: &'static str)
        ensures
            r@ == "Node.js"@,
    {
        "Node.js"
    }

    /// A `package.json` marks a Node.js project.
    pub fn detect(&self, p: &Project) -> (r: bool)
        ensures
            r == p@.present.contains("package.json"@),
    {
        p.has("package.json")
    }

    /// The commands for `o` in project `p`.
    pub fn plan(&self, o: &BuildOptions, p: &Project) -> (r: Vec<Action>)
        ensures
            actions_v(r@) == node_plan(*o, p@.present),
    {
        let pm = if p.has("pnpm-lock.yaml") {
            "pnpm"
        } else if p.has("yarn.lock") {
            "yarn"
        } else {
            "npm"
        };
        let c = if o.test {
            Cmd::new2(pm, "run", "test")
        } else if o.run {
            if p.has("main.js") || p.has("index.js") {
                Cmd::new1("node", ".")
            } else {
                Cmd::new2(pm, "run", "start")
            }
        } else {
            Cmd::new2(pm, "run", "build")
        };
        let r = vec![Action::Run(c)];
        assert(actions_v(r@) == node_plan(*o, p@.present));
        r
    }
}

} // verus!
