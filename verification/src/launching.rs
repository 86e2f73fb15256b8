//! Launching a project.
use vstd::prelude::*;
use crate::config::Project;
use crate::plan::{LaunchEnv, LaunchPlan};
use crate::terminal::{launch, launch_plan};

verus! {

/// The plan that launches `project`: the launch its terminal calls for.
pub fn launch_project(project: &Project, env: &LaunchEnv) -> (r: LaunchPlan)
    ensures
        r@ == launch_plan(*project, *env),
{
    launch(project, env)
}

} // verus!
