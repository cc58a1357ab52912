use vstd::prelude::*;
use crate::command::{Action, ActionV, Cmd, Project, cmd_v};
use crate::systems::actions_v;
use crate::text::{words, words_of, chars_of};

verus! {

/// A command given by the user in place of a detected build system.
#[derive(Debug, Clone, PartialEq, Eq)]
pub struct CustomBuild {
    pub command: String,
}

/// The command run by the system's shell (`sh -c`, or `cmd /C` on
/// Windows), so that it may be any shell command line; a blank command runs
/// nothing.
pub open spec fn custom_plan(command: Seq<char>, windows: bool) -> Seq<ActionV> {
    if words(command).len() == 0 {
        seq![]
    } else if windows {
        seq![ActionV::Run(cmd_v("cmd"@, seq!["/C"@, command]))]
    } else {
        seq![ActionV::Run(cmd_v("sh"@, seq!["-c"@, command]))]
    }
}

impl CustomBuild {
    pub fn name(&self) -> (r: &'static str)
        ensures
            r@ == "Custom Command"@,
    {
        "Custom Command"
    }

    pub fn description(&self) -> (r: &'static str)
        ensures
            r@ == "Execute a manually specified command"@,
    {
        "Execute a manually specified command"
    }

    /// A custom command is given, never detected.
    pub fn detect(&self) -> (r: bool)
        ensures
            !r,
    {
        false
    }

    /// The command to run in project `p`.
    pub fn plan(&self, p: &Project) -> (r: Vec<Action>)
        ensures
            actions_v(r@) == custom_plan(self.command@, p@.windows),
    {
        let cs = chars_of(self.command.as_str());
        let ws = words_of(&cs);
        if ws.len() == 0 {
            let r: Vec<Action> = Vec::new();
            assert(actions_v(r@) == custom_plan(self.command@, p@.windows));
            return r;
        }
        let c = if p.windows {
            Cmd::new2("cmd", "/C", self.command.as_str())
        } else {
            Cmd::new2("sh", "-c", self.command.as_str())
        };
        let r = vec![Action::Run(c)];
        assert(actions_v(r@) == custom_plan(self.command@, p@.windows));
        r
    }
}

} // verus!
