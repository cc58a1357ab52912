use vstd::prelude::*;
use crate::command::{Action, ActionV, Cmd, Project, cmd_v};
use crate::options::BuildOptions;
use crate::systems::actions_v;

verus! {

/// Projects run with Deno.
#[derive(Debug, Clone, Copy)]
pub struct DenoBuild;

/// The entry point Deno runs: `main.ts`, else `index.ts`, else the directory.
pub open spec fn deno_entry(present: Seq<Seq<char>>) -> Seq<char> {
    if present.contains("main.ts"@) {
        "main.ts"@
    } else if present.contains("index.ts"@) {
        "index.ts"@
    } else {
        "."@
    }
}

/// `deno test`, `deno run -A <entry>` or `deno task build`.
pub open spec fn deno_plan(o: BuildOptions, present: Seq<Seq<char>>) -> Seq<ActionV> {
    seq![
        ActionV::Run(
            cmd_v(
                "deno"@,
                if o.test {
                    seq!["test"@]
                } else if o.run {
                    seq!["run"@, "-A"@, deno_entry(present)]
                } else {
                    seq!["task"@, "build"@]
                },
            ),
        ),
    ]
}

impl DenoBuild {
    pub fn name(&self) -> (r: &'static str)
        ensures
            r@ == "Deno"@,
    {
        "Deno"
    }

    /// A Deno configuration file marks a Deno project.
    pub fn detect(&self, p: &Project) -> (r: bool)
        ensures
            r == (p@.present.contains("deno.json"@) || p@.present.contains("deno.jsonc"@)),
    {
        p.has("deno.json") || p.has("deno.jsonc")
    }

    /// The commands for `o` in project `p`.
    pub fn plan(&self, o: &BuildOptions, p: &Project) -> (r: Vec<Action>)
        ensures
            actions_v(r@) == deno_plan(*o, p@.present),
    {
        let c = if o.test {
            Cmd::new1("deno", "test")
        } else if o.run {
            let entry = if p.has("main.ts") {
                "main.ts"
            } else if p.has("index.ts") {
                "index.ts"
            } else {
                "."
            };
            Cmd::new3("deno", "run", "-A", entry)
        } else {
            Cmd::new2("deno", "task", "build")
        };
        let r = vec![Action::Run(c)];
        assert(actions_v(r@) == deno_plan(*o, p@.present));
        r
    }
}

} // verus!
