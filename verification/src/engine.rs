//! The build protocol: what the build engine is asked to do, and what its
//! answer means.

use crate::error::{result_view, SeavanError, SeavanErrorView, SeavanResult};
use crate::hash::ContentDigest;
use vstd::prelude::*;
use vstd::slice::slice_to_vec;
use vstd::utf8::{decode_utf8, valid_utf8};

verus! {

/// The program that builds images.
pub const ENGINE: &'static str = "docker";

/// The variable that switches on the engine's faster build mode.
pub const FAST_BUILD_VARIABLE: &'static str = "DOCKER_BUILDKIT";

/// What stands in a build failure for diagnostic output that is not text.
pub const NO_DIAGNOSTIC: &'static str = "No Docker stderr";

/// One run of the build engine, ready to be started.
#[derive(Debug)]
pub struct BuildInvocation {
    /// The program to run.
    pub program: String,
    /// Its arguments, in order.
    pub arguments: Vec<String>,
    /// The variable to set in its environment, and the value to give it.
    pub environment: (String, String),
    /// The directory to run it in, in the bytes in which the operating system
    /// gave it.
    pub working_directory: Vec<u8>,
    /// The build manifest, to be written to its standard input.
    pub manifest: String,
}

/// A `BuildInvocation` with its texts and bytes as sequences.
pub struct BuildInvocationView {
    pub program: Seq<char>,
    pub arguments: Seq<Seq<char>>,
    pub environment: (Seq<char>, Seq<char>),
    pub working_directory: Seq<u8>,
    pub manifest: Seq<char>,
}

impl View for BuildInvocation {
    type V = BuildInvocationView;

    open spec fn view(&self) -> BuildInvocationView {
        BuildInvocationView {
            program: self.program@,
            arguments: self.arguments@.map_values(|argument: String| argument@),
            environment: (self.environment.0@, self.environment.1@),
            working_directory: self.working_directory@,
            manifest: self.manifest@,
        }
    }
}

/// How a run of the build engine ended.
#[derive(Debug)]
pub struct EngineOutput {
    /// The exit code, if the engine exited with one.
    pub exit_code: Option<i32>,
    /// All that the engine wrote to its standard error stream.
    pub stderr: Vec<u8>,
}

/// An `EngineOutput` with its bytes as a sequence.
pub struct EngineOutputView {
    pub exit_code: Option<i32>,
    pub stderr: Seq<u8>,
}

impl View for EngineOutput {
    type V = EngineOutputView;

    open spec fn view(&self) -> EngineOutputView {
        EngineOutputView { exit_code: self.exit_code, stderr: self.stderr@ }
    }
}

/// The manifest that copies one file into an otherwise empty image: two
/// lines, each ended by a line feed.
pub open spec fn manifest_for(file_name: Seq<char>) -> Seq<char> {
    "FROM scratch\nCOPY "@ + file_name + " /\n"@
}

/// The run that builds `target` from the file `file_name` in `directory`: the
/// manifest comes on standard input (`-f -`), and the build context is the
/// working directory (`.`).
pub open spec fn invocation_for(
    target: Seq<char>,
    file_name: Seq<char>,
    directory: Seq<u8>,
) -> BuildInvocationView {
    BuildInvocationView {
        program: ENGINE@,
        arguments: seq!["build"@, "-f"@, "-"@, "-t"@, target, "."@],
        environment: (FAST_BUILD_VARIABLE@, "1"@),
        working_directory: directory,
        manifest: manifest_for(file_name),
    }
}

/// The text of the engine's diagnostic output, or the placeholder where that
/// output is not valid UTF-8.
pub open spec fn diagnostic_of(stderr: Seq<u8>) -> Seq<char> {
    if valid_utf8(stderr) {
        decode_utf8(stderr)
    } else {
        NO_DIAGNOSTIC@
    }
}

/// What a finished run means for the build of `target`: exit code zero is
/// success, anything else a failure that carries the diagnostic output.
pub open spec fn outcome_of(target: Seq<char>, output: EngineOutputView) -> Result<
    Seq<char>,
    SeavanErrorView,
> {
    if output.exit_code == Some(0i32) {
        Ok(target)
    } else {
        Err(SeavanErrorView::DockerBuildFailure(diagnostic_of(output.stderr)))
    }
}

/// How far a build has come: what the caller has done and learnt so far.
#[derive(Debug)]
pub enum BuildProgress {
    /// The build was asked for, and nothing has been done yet.
    Requested,
    /// The content of the wrapped file has been digested.
    Hashed(ContentDigest),
    /// The engine has run, for the content with this digest.
    Built(ContentDigest, EngineOutput),
    /// Reading the content or running the engine failed.
    Failed(std::io::Error),
}

/// A `BuildProgress` with its texts and bytes as sequences.
pub enum BuildProgressView {
    Requested,
    Hashed(Seq<char>),
    Built(Seq<char>, EngineOutputView),
    Failed(std::io::Error),
}

impl View for BuildProgress {
    type V = BuildProgressView;

    open spec fn view(&self) -> BuildProgressView {
        match self {
            BuildProgress::Requested => BuildProgressView::Requested,
            BuildProgress::Hashed(digest) => BuildProgressView::Hashed(digest@),
            BuildProgress::Built(digest, output) => BuildProgressView::Built(digest@, output@),
            BuildProgress::Failed(cause) => BuildProgressView::Failed(*cause),
        }
    }
}

/// What the caller is to do next.
#[derive(Debug)]
pub enum BuildStep {
    /// Digest the content of the wrapped file.
    HashContent,
    /// Run the build engine as described, and capture how it ends.
    RunEngine(BuildInvocation),
    /// Stop: the build has ended with this result.
    Finished(SeavanResult<String>),
}

/// A `BuildStep` with its texts as sequences of characters.
pub enum BuildStepView {
    HashContent,
    RunEngine(BuildInvocationView),
    Finished(Result<Seq<char>, SeavanErrorView>),
}

impl View for BuildStep {
    type V = BuildStepView;

    open spec fn view(&self) -> BuildStepView {
        match self {
            BuildStep::HashContent => BuildStepView::HashContent,
            BuildStep::RunEngine(invocation) => BuildStepView::RunEngine(invocation@),
            BuildStep::Finished(result) => BuildStepView::Finished(result_view(*result)),
        }
    }
}

impl BuildInvocation {
    /// The run that builds `target` from the file `file_name` in `directory`.
    pub fn new(target: String, file_name: &str, directory: &[u8]) -> (invocation: Self)
        ensures
            invocation@ == invocation_for(target@, file_name@, directory@),
    {
        let mut manifest = "FROM scratch\nCOPY ".to_owned();
        manifest.append(file_name);
        manifest.append(" /\n");
        let mut arguments: Vec<String> = Vec::new();
        arguments.push("build".to_owned());
        arguments.push("-f".to_owned());
        arguments.push("-".to_owned());
        arguments.push("-t".to_owned());
        arguments.push(target);
        arguments.push(".".to_owned());
        let invocation = BuildInvocation {
            program: ENGINE.to_owned(),
            arguments,
            environment: (FAST_BUILD_VARIABLE.to_owned(), "1".to_owned()),
            working_directory: slice_to_vec(directory),
            manifest,
        };
        assert(invocation@.arguments =~= invocation_for(
            target@,
            file_name@,
            directory@,
        ).arguments);
        invocation
    }
}

impl EngineOutput {
    /// Reads the end of a run as the result of building `target`.
    pub fn into_result(self, target: String) -> (result: SeavanResult<String>)
        ensures
            result_view(result) == outcome_of(target@, self@),
    {
        match self.exit_code {
            Some(0) => Ok(target),
            _ => {
                let diagnostic = match String::from_utf8(self.stderr) {
                    Ok(text) => text,
                    Err(_) => NO_DIAGNOSTIC.to_owned(),
                };
                Err(SeavanError::DockerBuildFailure(diagnostic))
            },
        }
    }
}

} // verus!
