use vstd::prelude::*;
use crate::command::{Action, ActionV, Cmd, Event, Project, cmd_v};
use crate::options::BuildOptions;
use crate::systems::{actions_v, Detection, DetectionV};

verus! {

/// Python projects managed by uv.
#[derive(Debug, Clone, Copy)]
pub struct UvBuild;

/// `uv run pytest`, `uv run <main.py or .>` or `uv sync`.
pub open spec fn uv_plan(o: BuildOptions, present: Seq<Seq<char>>) -> Seq<ActionV> {
    seq![
        ActionV::Run(
            cmd_v(
                "uv"@,
                if o.test {
                    seq!["run"@, "pytest"@]
                } else if o.run {
                    seq![
                        "run"@,
                        if present.contains("main.py"@) {
                            "main.py"@
                        } else {
                            "."@
                        },
                    ]
                } else {
                    seq!["sync"@]
                },
            ),
        ),
    ]
}

impl UvBuild {
    pub fn name(&self) -> (r: &'static str)
        ensures
            r@ == "uv"@,
    {
        "uv"
    }

    pub fn description(&self) -> (r: &'static str)
        ensures
            r@ == "Build and run Python projects using the uv package manager"@,
    {
        "Build and run Python projects using the uv package manager"
    }

    /// A `pyproject.toml` is needed; then whether uv is installed decides.
    pub fn detect(&self, p: &Project) -> (r: Detection)
        ensures
            r@ == if p@.present.contains("pyproject.toml"@) {
                DetectionV::Probe(cmd_v("uv"@, seq!["--version"@]))
            } else {
                DetectionV::Known(false)
            },
    {
        if p.has("pyproject.toml") {
            Detection::Probe(Cmd::new1("uv", "--version"))
        } else {
            Detection::Known(false)
        }
    }

    /// The probe's success decides.
    pub fn confirm(&self, ev: &Event) -> (r: bool)
        ensures
            r == match ev {
                Event::Flag(ok) => *ok,
                _ => false,
            },
    {
        match ev {
            Event::Flag(ok) => *ok,
            _ => false,
        }
    }

    /// The commands for `o` in project `p`.
    pub fn plan(&self, o: &BuildOptions, p: &Project) -> (r: Vec<Action>)
        ensures
            actions_v(r@) == uv_plan(*o, p@.present),
    {
        let c = if o.test {
            Cmd::new2("uv", "run", "pytest")
        } else if o.run {
            let entry = if p.has("main.py") {
                "main.py"
            } else {
                "."
            };
            Cmd::new2("uv", "run", entry)
        } else {
            Cmd::new1("uv", "sync")
        };
        let r = vec![Action::Run(c)];
        assert(actions_v(r@) == uv_plan(*o, p@.present));
        r
    }
}

} // verus!
