use vstd::prelude::*;
use crate::command::{Action, ActionV, Cmd, Event, cmd_v, strs};
use crate::options::{BuildOptions, verb_of};
use crate::systems::{actions_v, Detection, DetectionV};
 use crate::text::{extension, has_extension};

verus! {

/// .NET solutions and projects.
#[derive(Debug, Clone, Copy)]
pub struct DotnetBuild;

/// Whether a file name is a solution or a C# or F# project.
pub open spec fn is_dotnet_file(name: Seq<char>) -> bool {
    extension(name) == Some("csproj"@) || extension(name) == Some("fsproj"@) || extension(name)
        == Some("sln"@)
}

/// Whether the listed names of a directory include a .NET file.
pub open spec fn dotnet_confirm(ev: Event) -> bool {
    match ev {
        Event::Names(ns) => has_dotnet_file(strs(ns@)),
        _ => false,
    }
}

/// Whether one of `names` is a .NET file.
pub open spec fn has_dotnet_file(names: Seq<Seq<char>>) -> bool {
    exists|i: int| 0 <= i < names.len() && is_dotnet_file(#[trigger] names[i])
}

/// `dotnet <verb> -c <Release|Debug>`
pub open spec fn dotnet_plan(o: BuildOptions) -> Seq<ActionV> {
    seq![
        ActionV::Run(
            cmd_v(
                "dotnet"@,
                seq![
                    verb_of(o),
                    "-c"@,
                    if o.release {
                        "Release"@
                    } else {
                        "Debug"@
                    },
                ],
            ),
        ),
    ]
}

impl DotnetBuild {
    pub fn name(&self) -> (r: &'static str)
        ensures
            r@ == ".NET"@,
    {
        ".NET"
    }

    pub fn description(&self) -> (r: &'static str)
        ensures
            r@ == "Build and run .NET projects"@,
    {
        "Build and run .NET projects"
    }

    /// Detection looks at the names in the project directory.
    pub fn detect(&self) -> (r: Detection)
        ensures
            r@ == DetectionV::ListDir("."@),
    {
        Detection::ListDir(".".to_owned())
    }

    /// A solution or project file among the listed names marks a .NET
    /// project.
    pub fn confirm(&self, ev: &Event) -> (r: bool)
        ensures
            r == dotnet_confirm(*ev),
    {
        match ev {
            Event::Names(ns) => {
                let mut i: usize = 0;
                while i < ns.len()
                    invariant
                        i <= ns.len(),
                        *ev == Event::Names(*ns),
                        forall|j: int| 0 <= j < i ==> !is_dotnet_file(#[trigger] strs(ns@)[j]),
                    decreases ns.len() - i,
                {
                    let n = ns[i].as_str();
                    if has_extension(n, "csproj") || has_extension(n, "fsproj") || has_extension(
                        n,
                        "sln",
                    ) {
                        assert(is_dotnet_file(strs(ns@)[i as int]));
                        return true;
                    }
                    i = i + 1;
                }
                false
            },
            _ => false,
        }
    }

    /// The commands for `o`.
    pub fn plan(&self, o: &BuildOptions) -> (r: Vec<Action>)
        ensures
            actions_v(r@) == dotnet_plan(*o),
    {
        let config = if o.release {
            "Release"
        } else {
            "Debug"
        };
        let r = vec![Action::Run(Cmd::new3("dotnet", o.verb(), "-c", config))];
        assert(actions_v(r@) == dotnet_plan(*o));
        r
    }
}

} // verus!
