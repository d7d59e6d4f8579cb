//! The container backend: what is asked of the container engine to launch a
//! plugin, step by step, and how each answer decides the next step.

use crate::error::{Error, ErrorKind};
use crate::models::plugins::Plugin;
use crate::plugins::runtime::tagged;
use vstd::prelude::*;
use vstd::string::*;

verus! {

/// What the container engine is told to launch a plugin: the image to pull,
/// and the container to make of it. Every container exposes one port and
/// binds it to a fixed port of the host.
#[derive(Clone, Debug)]
pub struct ContainerLaunch {
    pub name: String,
    pub image: String,
    pub repo: String,
    pub tag: String,
    pub exposed_port: String,
    pub host_ip: String,
    pub host_port: String,
}

/// What the container engine is told to launch this plugin: the container
/// has the name of the plugin and is made of its source image, pulled from
/// its repository at its tag; port `80/tcp` is bound to `0.0.0.0:8081`.
pub fn container_launch(plugin: &Plugin) -> (out: ContainerLaunch)
    ensures
        out.name@ == plugin.name@,
        out.image@ == plugin.source@,
        out.repo@ == plugin.repo@,
        out.tag@ == plugin.tag@,
        out.exposed_port@ == "80/tcp"@,
        out.host_ip@ == "0.0.0.0"@,
        out.host_port@ == "8081"@,
{
    ContainerLaunch {
        name: plugin.name.clone(),
        image: plugin.source.clone(),
        repo: plugin.repo.clone(),
        tag: plugin.tag.clone(),
        exposed_port: String::from_str("80/tcp"),
        host_ip: String::from_str("0.0.0.0"),
        host_port: String::from_str("8081"),
    }
}

/// A step of launching a container.
#[derive(Clone, Copy, Debug, PartialEq, Eq, Structural)]
pub enum ContainerStep {
    /// Connect to the container engine.
    Connect,
    /// Pull the image.
    Pull,
    /// List the containers that have the name of the plugin.
    List,
    /// Stop the container that has the name already.
    Stop,
    /// Remove the container that has the name already.
    Remove,
    /// Create the container.
    Create,
    /// Start the container.
    Start,
}

/// Where a launch stands after a step.
#[derive(Clone, Debug)]
pub enum LaunchProgress {
    /// This step is to be done next.
    Next(ContainerStep),
    /// The container runs.
    Launched,
    /// The launch is given up with this error.
    Aborted(Error),
}

/// The label under which the failure of a step is reported.
pub open spec fn step_label(step: ContainerStep) -> Seq<char> {
    match step {
        ContainerStep::Connect => "Failed to connect to docker: "@,
        ContainerStep::Pull => "Failed to pull image: "@,
        ContainerStep::List => "Failed to list containers: "@,
        ContainerStep::Stop => "Failed to stop container: "@,
        ContainerStep::Remove => "Failed to remove container: "@,
        ContainerStep::Create => "Failed to create docker container: "@,
        ContainerStep::Start => "Failed to start docker container: "@,
    }
}

/// The step that follows a step that went well. `found` is the number of
/// containers that the listing gave; it is read after `List` only. Nothing
/// follows `Start`.
pub open spec fn step_after(step: ContainerStep, found: usize) -> Option<ContainerStep> {
    match step {
        ContainerStep::Connect => Some(ContainerStep::Pull),
        ContainerStep::Pull => Some(ContainerStep::List),
        ContainerStep::List => if found == 0 {
            Some(ContainerStep::Create)
        } else {
            Some(ContainerStep::Stop)
        },
        ContainerStep::Stop => Some(ContainerStep::Remove),
        ContainerStep::Remove => Some(ContainerStep::Create),
        ContainerStep::Create => Some(ContainerStep::Start),
        ContainerStep::Start => None,
    }
}

/// The first step of launching a container.
pub fn first_container_step() -> (out: ContainerStep)
    ensures
        out == ContainerStep::Connect,
{
    ContainerStep::Connect
}

fn label_of(step: ContainerStep) -> (out: &'static str)
    ensures
        out@ == step_label(step),
{
    match step {
        ContainerStep::Connect => "Failed to connect to docker: ",
        ContainerStep::Pull => "Failed to pull image: ",
        ContainerStep::List => "Failed to list containers: ",
        ContainerStep::Stop => "Failed to stop container: ",
        ContainerStep::Remove => "Failed to remove container: ",
        ContainerStep::Create => "Failed to create docker container: ",
        ContainerStep::Start => "Failed to start docker container: ",
    }
}

/// One step on the way of starting a container plugin: from the step that
/// was done and what it gave to what comes next. The steps are: connect,
/// pull the image, list the containers of the plugin's name, stop and remove
/// the one that exists, create the container, start it. The failure of any
/// step gives the launch up, with the kind of the failure and under the label
/// of the step; only a start that went well launches the plugin.
pub fn start_docker_plugin(step: ContainerStep, outcome: Result<usize, Error>) -> (out:
    LaunchProgress)
    ensures
        match outcome {
            Err(e) => out matches LaunchProgress::Aborted(failure) && failure.kind == e.kind
                && failure.message@ == step_label(step) + e.message@,
            Ok(found) => match step_after(step, found) {
                Some(next) => out matches LaunchProgress::Next(s) && s == next,
                None => out is Launched,
            },
        },
{
    match outcome {
        Err(e) => LaunchProgress::Aborted(tagged(label_of(step), &e)),
        Ok(found) => match step {
            ContainerStep::Connect => LaunchProgress::Next(ContainerStep::Pull),
            ContainerStep::Pull => LaunchProgress::Next(ContainerStep::List),
            ContainerStep::List => if found == 0 {
                LaunchProgress::Next(ContainerStep::Create)
            } else {
                LaunchProgress::Next(ContainerStep::Stop)
            },
            ContainerStep::Stop => LaunchProgress::Next(ContainerStep::Remove),
            ContainerStep::Remove => LaunchProgress::Next(ContainerStep::Create),
            ContainerStep::Create => LaunchProgress::Next(ContainerStep::Start),
            ContainerStep::Start => LaunchProgress::Launched,
        },
    }
}

/// How far a step is from the end of the launch: the number of steps that can
/// still follow it.
pub open spec fn steps_left(step: ContainerStep) -> nat {
    match step {
        ContainerStep::Connect => 6,
        ContainerStep::Pull => 5,
        ContainerStep::List => 4,
        ContainerStep::Stop => 3,
        ContainerStep::Remove => 2,
        ContainerStep::Create => 1,
        ContainerStep::Start => 0,
    }
}

/// A launch comes to an end: each step that follows another is nearer to the
/// end than the one before it.
pub proof fn launch_makes_progress(step: ContainerStep, found: usize)
    ensures
        step_after(step, found) matches Some(next) ==> steps_left(next) < steps_left(step),
        step_after(step, found) is None <==> step == ContainerStep::Start,
{
}

/// Starting a plugin that is a Rust project: not supported.
pub fn start_rust_plugin(plugin: &Plugin) -> (out: Result<(), Error>)
    ensures
        out matches Err(e) && e.kind == ErrorKind::Unsupported,
{
    Err(Error::new(ErrorKind::Unsupported, String::from_str("Rust Projects Not Supported Yet")))
}

} // verus!
