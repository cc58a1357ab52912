use vstd::prelude::*;
use crate::command::{Action, ActionV, Cmd, Project, cmd_v};
use crate::options::BuildOptions;
use crate::systems::actions_v;

verus! {

/// Projects built into a Docker image.
#[derive(Debug, Clone, Copy)]
pub struct DockerBuild;

/// Build the image `app_image`; when running, start a throw-away
/// container of it on the terminal.
pub open spec fn docker_plan(o: BuildOptions) -> Seq<ActionV> {
    let build = ActionV::Run(cmd_v("docker"@, seq!["build"@, "."@, "-t"@, "app_image"@]));
    if o.run {
        seq![build, ActionV::Run(cmd_v("docker"@, seq!["run"@, "-it"@, "--rm"@, "app_image"@]))]
    } else {
        seq![build]
    }
}

impl DockerBuild {
    pub fn name(&self) -> (r: &'static str)
        ensures
            r@ == "Docker"@,
    {
        "Docker"
    }

    pub fn description(&self) -> (r: &'static str)
        ensures
            r@ == "Build and run Docker images"@,
    {
        "Build and run Docker images"
    }

    /// A `Dockerfile` marks a Docker project.
    pub fn detect(&self, p: &Project) -> (r: bool)
        ensures
            r == p@.present.contains("Dockerfile"@),
    {
        p.has("Dockerfile")
    }

    /// The commands for `o`.
    pub fn plan(&self, o: &BuildOptions) -> (r: Vec<Action>)
        ensures
            actions_v(r@) == docker_plan(*o),
    {
        let mut r = vec![Action::Run(Cmd::new4("docker", "build", ".", "-t", "app_image"))];
        if o.run {
            r.push(Action::Run(Cmd::new4("docker", "run", "-it", "--rm", "app_image")));
        }
        assert(actions_v(r@) == docker_plan(*o));
        r
    }
}

} // verus!
