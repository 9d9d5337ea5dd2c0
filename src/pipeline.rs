use vstd::prelude::*;

use crate::artifact::{text, texts};

verus! {

/// One named command of a job.
#[derive(Debug, Clone)]
pub struct Step {
    pub name: String,
    pub run: String,
}

/// A job of a pipeline: where it runs and its steps in order.
#[derive(Debug, Clone)]
pub struct Job {
    pub id: String,
    pub runs_on: String,
    pub working_directory: Option<String>,
    pub steps: Vec<Step>,
}

/// A CI pipeline: its triggers and jobs.
#[derive(Debug, Clone)]
pub struct Pipeline {
    pub name: String,
    pub triggers: Vec<String>,
    pub jobs: Vec<Job>,
}

pub open spec fn step_is(s: Step, name: Seq<char>, run: Seq<char>) -> bool {
    s.name@ == name && s.run@ == run
}

fn step(name: &str, run: &str) -> (r: Step)
    ensures
        step_is(r, name@, run@),
{
    Step { name: text(name), run: text(run) }
}

/// The build job of the dashboard pipeline.
pub open spec fn is_build_job(j: Job) -> bool {
    &&& j.id@ == "build-bootstrap-ui"@
    &&& j.runs_on@ == "ubuntu-latest"@
    &&& j.working_directory matches Some(d) && d@ == "frontend"@
    &&& j.steps@.len() == 6
    &&& step_is(j.steps@[0], "Checkout source code"@, "actions/checkout@v4"@)
    &&& step_is(j.steps@[1], "Set up Node.js"@, "actions/setup-node@v4 node=20.x"@)
    &&& step_is(j.steps@[2], "Install dependencies"@, "npm ci"@)
    &&& step_is(j.steps@[3], "Build Bootstrap v5 assets"@, "npm run build"@)
    &&& step_is(
        j.steps@[4],
        "Verify built assets"@,
        "ls -lh dist || ls -lh build || ls -lh ../public"@,
    )
    &&& step_is(j.steps@[5], "Upload artifact"@, "actions/upload-artifact@v4"@)
}

/// The deployment job of the dashboard pipeline.
pub open spec fn is_deploy_job(j: Job) -> bool {
    &&& j.id@ == "deploy-gh-pages"@
    &&& j.runs_on@ == "ubuntu-latest"@
    &&& j.working_directory is None
    &&& j.steps@.len() == 2
    &&& step_is(j.steps@[0], "Download built artifact"@, "actions/download-artifact@v4"@)
    &&& step_is(j.steps@[1], "Deploy to GitHub Pages"@, "peaceiris/actions-gh-pages@v4"@)
}

/// The pipeline that builds the dashboard's assets and deploys them.
pub fn bootstrap_nexsm_pipeline() -> (r: Pipeline)
    ensures
        r.name@ == "Build & Deploy Bootstrap v5 NEXSM Dashboard"@,
        texts(r.triggers@) == seq!["push:main"@, "pull_request:main"@, "workflow_dispatch"@],
        r.jobs@.len() == 2,
        is_build_job(r.jobs@[0]),
        is_deploy_job(r.jobs@[1]),
{
    let mut triggers: Vec<String> = Vec::new();
    triggers.push(text("push:main"));
    triggers.push(text("pull_request:main"));
    triggers.push(text("workflow_dispatch"));
    assert(texts(triggers@) =~= seq!["push:main"@, "pull_request:main"@, "workflow_dispatch"@]);

    let mut build_steps: Vec<Step> = Vec::new();
    build_steps.push(step("Checkout source code", "actions/checkout@v4"));
    build_steps.push(step("Set up Node.js", "actions/setup-node@v4 node=20.x"));
    build_steps.push(step("Install dependencies", "npm ci"));
    build_steps.push(step("Build Bootstrap v5 assets", "npm run build"));
    build_steps.push(
        step("Verify built assets", "ls -lh dist || ls -lh build || ls -lh ../public"),
    );
    build_steps.push(step("Upload artifact", "actions/upload-artifact@v4"));

    let mut deploy_steps: Vec<Step> = Vec::new();
    deploy_steps.push(step("Download built artifact", "actions/download-artifact@v4"));
    deploy_steps.push(step("Deploy to GitHub Pages", "peaceiris/actions-gh-pages@v4"));

    let mut jobs: Vec<Job> = Vec::new();
    jobs.push(
        Job {
            id: text("build-bootstrap-ui"),
            runs_on: text("ubuntu-latest"),
            working_directory: Some(text("frontend")),
            steps: build_steps,
        },
    );
    jobs.push(
        Job {
            id: text("deploy-gh-pages"),
            runs_on: text("ubuntu-latest"),
            working_directory: None,
            steps: deploy_steps,
        },
    );
    Pipeline { name: text("Build & Deploy Bootstrap v5 NEXSM Dashboard"), triggers, jobs }
}

} // verus!
