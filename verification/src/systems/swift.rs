use vstd::prelude::*;
use crate::command::{Action, ActionV, Cmd, Project, cmd_v};
use crate::options::{BuildOptions, verb_of};
use crate::systems::actions_v;

verus! {

/// Swift packages.
#[derive(Debug, Clone, Copy)]
pub struct SwiftBuild;

/// `swift <verb> -c <release|debug>`
pub open spec fn swift_plan(o: BuildOptions) -> Seq<ActionV> {
    seq![
        ActionV::Run(
            cmd_v(
                "swift"@,
                seq![
                    verb_of(o),
                    "-c"@,
                    if o.release {
                        "release"@
                    } else {
                        "debug"@
                    },
                ],
            ),
        ),
    ]
}

impl SwiftBuild {
    pub fn name(&self) -> (r: &'static str)
        ensures
            r@ == "Swift"@,
    {
        "Swift"
    }

    pub fn description(&self) -> (r: &'static str)
        ensures
            r@ == "Build and run Swift projects"@,
    {
        "Build and run Swift projects"
    }

    /// A `Package.swift` marks a Swift package.
    pub fn detect(&self, p: &Project) -> (r: bool)
        ensures
            r == p@.present.contains("Package.swift"@),
    {
        p.has("Package.swift")
    }

    /// The commands for `o`.
    pub fn plan(&self, o: &BuildOptions) -> (r: Vec<Action>)
        ensures
            actions_v(r@) == swift_plan(*o),
    {
        let config = if o.release {
            "release"
        } else {
            "debug"
        };
        let r = vec![Action::Run(Cmd::new3("swift", o.verb(), "-c", config))];
        assert(actions_v(r@) == swift_plan(*o));
        r
    }
}

} // verus!
