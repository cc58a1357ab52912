use vstd::prelude::*;
use crate::command::{Action, ActionV, Cmd, Project, cmd_v};
use crate::options::{BuildOptions, verb_of};
use crate::systems::actions_v;

verus! {

/// Cargo projects.
#[derive(Debug, Clone, Copy)]
pub struct RustBuild;

/// What Cargo is asked to do: the action word, in release mode if asked,
/// on the terminal.
pub open spec fn rust_plan(o: BuildOptions) -> Seq<ActionV> {
    seq![
        ActionV::Interactive(
            cmd_v(
                "cargo"@,
                if o.release {
                    seq![verb_of(o), "--release"@]
                } else {
                    seq![verb_of(o)]
                },
            ),
        ),
    ]
}

impl RustBuild {
    pub fn name(&self) -> (r: &'static str)
        ensures
            r@ == "Rust"@,
    {
        "Rust"
    }

    pub fn description(&self) -> (r: &'static str)
        ensures
            r@ == "Build and run Rust projects using Cargo"@,
    {
        "Build and run Rust projects using Cargo"
    }

    /// A Cargo manifest marks a Rust project.
    pub fn detect(&self, p: &Project) -> (r: bool)
        ensures
            r == p@.present.contains("Cargo.toml"@),
    {
        p.has("Cargo.toml")
    }

    /// The commands for `o`.
    pub fn plan(&self, o: &BuildOptions) -> (r: Vec<Action>)
        ensures
            actions_v(r@) == rust_plan(*o),
    {
        let verb = o.verb();
        let c = if o.release {
            Cmd::new2("cargo", verb, "--release")
        } else {
            Cmd::new1("cargo", verb)
        };
        let r = vec![Action::Interactive(c)];
        assert(actions_v(r@) == rust_plan(*o));
        r
    }
}

} // verus!
