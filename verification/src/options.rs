use vstd::prelude::*;

verus! {

/// The switches that select what a build system is asked to do.
#[derive(Clone, Copy, Debug, Default, PartialEq, Eq, Structural)]
pub struct BuildOptions {
    pub run: bool,
    pub release: bool,
    pub test: bool,
    pub select_system: bool,
    pub select_command: bool,
}

/// The action word for a set of options: testing wins over running, and
/// building is what is left.
pub open spec fn verb_of(o: BuildOptions) -> Seq<char> {
    if o.test {
        "test"@
    } else if o.run {
        "run"@
    } else {
        "build"@
    }
}

impl BuildOptions {
    /// The action word (`test`, `run` or `build`) that most tools accept.
    pub fn verb(&self) -> (r: &'static str)
        ensures
            r@ == verb_of(*self),
    {
        if self.test {
            "test"
        } else if self.run {
            "run"
        } else {
            "build"
        }
    }
}

} // verus!
