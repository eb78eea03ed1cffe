//! The stages of the containerized prover and verifier.
//!
//! Every stage is one invocation of the container runtime in the prover's
//! directory. The functions here only say what is to be run; running it is
//! up to a `PipelineRun` and its driver.

use crate::command::{StageCommand, StageCommandView, texts};
use crate::pipeline::{Pipeline, Stage, StageView, stage_views};
use vstd::prelude::*;

verus! {

/// A prover, known by the name of its container image.
#[derive(Debug, PartialEq, Eq)]
pub struct Prover(pub String);

/// The container runtime.
pub open spec fn runtime() -> Seq<char> {
    "podman"@
}

/// The directory every stage runs in.
pub open spec fn prover_directory() -> Seq<char> {
    "./stone-prover"@
}

/// The file, in the prover's directory, that holds the input of a proof.
pub open spec fn input_file() -> Seq<char> {
    "program_input.json"@
}

/// The image name of the verifier.
pub open spec fn verifier_image() -> Seq<char> {
    "verifier"@
}

/// An invocation of the container runtime in the prover's directory.
pub open spec fn invocation(args: Seq<Seq<char>>, input: Option<Seq<char>>) -> StageCommandView {
    StageCommandView { program: runtime(), args, cwd: prover_directory(), input }
}

/// The stage that pulls `image` from the registry.
pub open spec fn pull_stage(name: Seq<char>, image: Seq<char>) -> StageView {
    StageView {
        name,
        command: invocation(seq!["pull"@, "docker.io/"@ + image], None),
        consumes_previous: false,
    }
}

/// The stage that builds the image `tag` from `dockerfile`.
pub open spec fn build_stage(name: Seq<char>, tag: Seq<char>, dockerfile: Seq<char>) -> StageView {
    StageView {
        name,
        command: invocation(seq!["build"@, "-t"@, tag, "-f"@, dockerfile, "."@], None),
        consumes_previous: false,
    }
}

/// The stage that runs `image` once, with `input` on its input channel.
pub open spec fn run_stage(name: Seq<char>, image: Seq<char>, input: Seq<char>) -> StageView {
    StageView {
        name,
        command: invocation(seq!["run"@, "-i"@, "--rm"@, image], Some(input)),
        consumes_previous: false,
    }
}

/// An invocation of the container runtime in the prover's directory.
fn invoke(args: Vec<String>, input: Option<String>) -> (command: StageCommand)
    ensures
        command@ == invocation(
            texts(args@),
            match input {
                Some(payload) => Some(payload@),
                None => None,
            },
        ),
{
    StageCommand::new(String::from_str("podman"), args, String::from_str("./stone-prover"), input)
}

/// The stage that pulls `image` from the registry.
fn pull_image(name: &str, image: &str) -> (stage: Stage)
    ensures
        stage@ == pull_stage(name@, image@),
{
    let mut args: Vec<String> = Vec::new();
    args.push(String::from_str("pull"));
    args.push(String::from_str("docker.io/").concat(image));
    assert(texts(args@) =~= seq!["pull"@, "docker.io/"@ + image@]);
    Stage::new(String::from_str(name), invoke(args, None), false)
}

/// The stage that builds the image `tag` from `dockerfile`.
fn build_image(name: &str, tag: &str, dockerfile: &str) -> (stage: Stage)
    ensures
        stage@ == build_stage(name@, tag@, dockerfile@),
{
    let mut args: Vec<String> = Vec::new();
    args.push(String::from_str("build"));
    args.push(String::from_str("-t"));
    args.push(String::from_str(tag));
    args.push(String::from_str("-f"));
    args.push(String::from_str(dockerfile));
    args.push(String::from_str("."));
    assert(texts(args@) =~= seq!["build"@, "-t"@, tag@, "-f"@, dockerfile@, "."@]);
    Stage::new(String::from_str(name), invoke(args, None), false)
}

/// The stage that runs `image` once, with `input` on its input channel.
fn run_image(name: &str, image: &str, input: String) -> (stage: Stage)
    ensures
        stage@ == run_stage(name@, image@, input@),
{
    let mut args: Vec<String> = Vec::new();
    args.push(String::from_str("run"));
    args.push(String::from_str("-i"));
    args.push(String::from_str("--rm"));
    args.push(String::from_str(image));
    assert(texts(args@) =~= seq!["run"@, "-i"@, "--rm"@, image@]);
    Stage::new(String::from_str(name), invoke(args, Some(input)), false)
}

/// The pipeline of one stage.
fn single(stage: Stage) -> (pipeline: Pipeline)
    ensures
        pipeline@ == seq![stage@],
{
    let mut stages: Vec<Stage> = Vec::new();
    stages.push(stage);
    assert(stage_views(stages@) =~= seq![stage@]);
    Pipeline::new(stages)
}

/// The pipeline of two stages, in this order.
fn pair(first: Stage, second: Stage) -> (pipeline: Pipeline)
    ensures
        pipeline@ == seq![first@, second@],
{
    let mut stages: Vec<Stage> = Vec::new();
    stages.push(first);
    stages.push(second);
    assert(stage_views(stages@) =~= seq![first@, second@]);
    Pipeline::new(stages)
}

impl Prover {
    /// The path of the file that holds the input of a proof: the input file
    /// in the prover's directory.
    pub fn input_path() -> (path: String)
        ensures
            path@ == prover_directory() + "/"@ + input_file(),
    {
        let mut path = String::from_str("./stone-prover");
        path.append("/");
        path.append("program_input.json");
        path
    }

    /// Pulling the images `prover` and `verifier` from the registry, the
    /// prover first.
    pub fn pull(&self, prover: &str, verifier: &str) -> (pipeline: Pipeline)
        ensures
            pipeline@ == seq![
                pull_stage("pull-prover"@, prover@),
                pull_stage("pull-verifier"@, verifier@),
            ],
    {
        pair(pull_image("pull-prover", prover), pull_image("pull-verifier", verifier))
    }

    /// Building the image of this prover and then that of the verifier,
    /// each from its own build file in the prover's directory.
    pub fn rebuild(&self) -> (pipeline: Pipeline)
        ensures
            pipeline@ == seq![
                build_stage("build-prover"@, self.0@, "prover.dockerfile"@),
                build_stage("build-verifier"@, verifier_image(), "verifier.dockerfile"@),
            ],
    {
        pair(
            build_image("build-prover", self.0.as_str(), "prover.dockerfile"),
            build_image("build-verifier", "verifier", "verifier.dockerfile"),
        )
    }

    /// Running this prover on `input`. The output of the stage is the proof.
    pub fn prove(&self, input: String) -> (pipeline: Pipeline)
        ensures
            pipeline@ == seq![run_stage("run-prover"@, self.0@, input@)],
    {
        single(run_image("run-prover", self.0.as_str(), input))
    }

    /// Running the verifier on `proof`. The stage succeeds when the
    /// verifier accepts the proof.
    pub fn verify(proof: String) -> (pipeline: Pipeline)
        ensures
            pipeline@ == seq![run_stage("run-verifier"@, verifier_image(), proof@)],
    {
        single(run_image("run-verifier", "verifier", proof))
    }
}

} // verus!
