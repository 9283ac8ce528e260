//! # seavan
//!
//! A library which wraps files in a container layer for later composition.
//!
//! The crate holds the naming and build-protocol rules. Resolving the path,
//! reading the file and running the build engine are left to the caller, who
//! hands over what it found as plain values.

pub mod engine;
pub mod error;
pub mod hash;
pub mod path;
pub mod text;
pub mod utils;

use crate::engine::{
    invocation_for, outcome_of, BuildInvocation, BuildProgress, BuildProgressView, BuildStep,
    BuildStepView, EngineOutputView,
};
use crate::error::{message_of, result_view, SeavanError, SeavanErrorView, SeavanResult};
use crate::hash::{is_digest_text, ContentDigest};
use crate::path::{directory_of, file_name_of, PathPart, PathPartView, ResolvedPath, ResolvedPathView};
use crate::text::starts_with;
use crate::utils::{docker_safe_string, is_safe, sanitized};
use vstd::prelude::*;
use vstd::utf8::{decode_utf8, valid_utf8};

verus! {

/// This value is a constant prefix for the generated image; this makes it
/// harder for people to use DockerHub for storage.
pub const PACKAGE_ROOT: &'static str = "seavanpkg";

/// The tag of an image for which none was chosen.
pub const DEFAULT_TAG: &'static str = "latest";

/// Registries that begin with this are rejected.
pub const BANNED_REGISTRY_PREFIX: &'static str = "docker.io";

/// A structure representing a file wrapped in a Docker container shell.
#[derive(Debug)]
pub struct Seavan {
    registry: Option<String>,
    path: ResolvedPath,
    tag: String,
}

/// A `Seavan` with its texts as sequences of characters.
pub struct SeavanView {
    pub registry: Option<Seq<char>>,
    pub path: ResolvedPathView,
    pub tag: Seq<char>,
}

impl View for Seavan {
    type V = SeavanView;

    closed spec fn view(&self) -> SeavanView {
        SeavanView {
            registry: match self.registry {
                Some(registry) => Some(registry@),
                None => None,
            },
            path: self.path@,
            tag: self.tag@,
        }
    }
}

/// Whether a registry is rejected: it begins with the banned prefix.
pub open spec fn is_banned_registry(registry: Seq<char>) -> bool {
    BANNED_REGISTRY_PREFIX@.is_prefix_of(registry)
}

/// What holds of every `Seavan`: the wrapped file has a name, the tag is
/// safe, and the registry, if one is set, is not a banned one.
pub open spec fn is_valid(wrap: SeavanView) -> bool {
    &&& !(wrap.path.file_name is Absent)
    &&& is_safe(wrap.tag)
    &&& wrap.registry matches Some(registry) ==> !is_banned_registry(registry)
}

/// The repository name and tag of an image:
/// `[<registry>/]seavanpkg/<digest>--<safe file name>:<tag>`.
pub open spec fn image_name(
    registry: Option<Seq<char>>,
    digest: Seq<char>,
    file_name: Seq<char>,
    tag: Seq<char>,
) -> Seq<char> {
    let root = match registry {
        Some(registry) => registry + "/"@ + PACKAGE_ROOT@,
        None => PACKAGE_ROOT@,
    };
    root + "/"@ + digest + "--"@ + sanitized(file_name) + ":"@ + tag
}

/// The repository name and tag of the image for `wrap`, given the digest of
/// the wrapped file's content.
pub open spec fn name_of(wrap: SeavanView, digest: Seq<char>) -> Result<
    Seq<char>,
    SeavanErrorView,
> {
    match file_name_of(wrap.path) {
        Ok(file_name) => Ok(image_name(wrap.registry, digest, file_name, wrap.tag)),
        Err(error) => Err(error),
    }
}

/// The next step of a build of `wrap` that has come as far as `progress`.
/// The name is settled first, then the working directory; the engine's
/// answer is read only after that.
pub open spec fn next_step(wrap: SeavanView, progress: BuildProgressView) -> BuildStepView {
    match progress {
        BuildProgressView::Failed(cause) => BuildStepView::Finished(
            Err(SeavanErrorView::IoError(cause)),
        ),
        BuildProgressView::Requested => match file_name_of(wrap.path) {
            Ok(_) => BuildStepView::HashContent,
            Err(error) => BuildStepView::Finished(Err(error)),
        },
        BuildProgressView::Hashed(digest) => match file_name_of(wrap.path) {
            Err(error) => BuildStepView::Finished(Err(error)),
            Ok(file_name) => match directory_of(wrap.path) {
                Err(error) => BuildStepView::Finished(Err(error)),
                Ok(directory) => BuildStepView::RunEngine(
                    invocation_for(
                        image_name(wrap.registry, digest, file_name, wrap.tag),
                        file_name,
                        directory,
                    ),
                ),
            },
        },
        BuildProgressView::Built(digest, output) => match name_of(wrap, digest) {
            Ok(target) => BuildStepView::Finished(outcome_of(target, output)),
            Err(error) => BuildStepView::Finished(Err(error)),
        },
    }
}

/// A build takes its steps in order and ends: a request is answered by
/// hashing or by the end, a digest by running the engine or by the end, and
/// the engine's answer or a failure to read or run always by the end.
pub proof fn lemma_build_ends(
    wrap: SeavanView,
    digest: Seq<char>,
    output: EngineOutputView,
    cause: std::io::Error,
)
    ensures
        next_step(wrap, BuildProgressView::Requested) is HashContent || next_step(
            wrap,
            BuildProgressView::Requested,
        ) is Finished,
        next_step(wrap, BuildProgressView::Hashed(digest)) is RunEngine || next_step(
            wrap,
            BuildProgressView::Hashed(digest),
        ) is Finished,
        next_step(wrap, BuildProgressView::Built(digest, output)) is Finished,
        next_step(wrap, BuildProgressView::Failed(cause)) is Finished,
{
}

/// Where the wrapped file has a name that is text and a directory, whatever
/// the bytes of that directory, the step after hashing runs the engine, in
/// that directory, for the repository name and tag of the wrap.
pub proof fn lemma_engine_runs_in_directory(
    wrap: SeavanView,
    digest: Seq<char>,
    file_name: Seq<char>,
    directory: Seq<u8>,
)
    requires
        wrap.path.file_name == PathPartView::Text(file_name),
        wrap.path.directory == Some(directory),
    ensures
        next_step(wrap, BuildProgressView::Hashed(digest)) == BuildStepView::RunEngine(
            invocation_for(
                image_name(wrap.registry, digest, file_name, wrap.tag),
                file_name,
                directory,
            ),
        ),
        next_step(wrap, BuildProgressView::Hashed(digest))->RunEngine_0.working_directory
            == directory,
{
}

/// The name that a successful build returns is the target that the engine
/// was asked to build, which is the repository name and tag of the wrap.
pub proof fn lemma_built_name_is_target(
    wrap: SeavanView,
    digest: Seq<char>,
    output: EngineOutputView,
    target: Seq<char>,
)
    requires
        name_of(wrap, digest) == Ok::<Seq<char>, SeavanErrorView>(target),
        directory_of(wrap.path) is Ok,
        output.exit_code == Some(0i32),
    ensures
        next_step(wrap, BuildProgressView::Hashed(digest)) is RunEngine,
        next_step(wrap, BuildProgressView::Hashed(digest))->RunEngine_0.arguments[4] == target,
        next_step(wrap, BuildProgressView::Built(digest, output)) == BuildStepView::Finished(
            Ok(target),
        ),
{
}

/// A build whose engine did not exit with code zero fails, and the message
/// of the failure ends with what the engine wrote to its standard error
/// stream, where that is text.
pub proof fn lemma_failed_build_carries_diagnostic(
    wrap: SeavanView,
    digest: Seq<char>,
    output: EngineOutputView,
)
    requires
        name_of(wrap, digest) is Ok,
        output.exit_code != Some(0i32),
        valid_utf8(output.stderr),
    ensures
        next_step(wrap, BuildProgressView::Built(digest, output)) == BuildStepView::Finished(
            Err(SeavanErrorView::DockerBuildFailure(decode_utf8(output.stderr))),
        ),
        message_of(SeavanErrorView::DockerBuildFailure(decode_utf8(output.stderr)))
            == "Docker build failure: "@ + decode_utf8(output.stderr),
{
}

impl Seavan {
    #[verifier::type_invariant]
    spec fn well_formed(&self) -> bool {
        is_valid(self@)
    }

    /// Creates a new `Seavan` from the outcome of resolving the path of the
    /// file to be wrapped. The repository name will be automatically derived
    /// from the file's name.
    pub fn new(resolved: Result<ResolvedPath, std::io::Error>) -> (made: SeavanResult<Self>)
        ensures
            result_view(made) == match resolved {
                Err(cause) => Err(SeavanErrorView::IoError(cause)),
                Ok(path) => match path@.file_name {
                    PathPartView::Absent => Err(SeavanErrorView::NoFileName(path@.location)),
                    _ => Ok(SeavanView { registry: None, path: path@, tag: DEFAULT_TAG@ }),
                },
            },
            made matches Ok(wrap) ==> is_valid(wrap@),
    {
        match resolved {
            Err(cause) => Err(SeavanError::IoError(cause)),
            Ok(path) => {
                if let PathPart::Absent = path.file_name {
                    return Err(SeavanError::NoFileName(path.location));
                }
                proof {
                    reveal_strlit("latest");
                }
                Ok(Seavan { registry: None, path, tag: DEFAULT_TAG.to_owned() })
            },
        }
    }

    /// Specifies the tag to be used for the image instead of the default.
    /// The tag will be sanitised before use.
    pub fn with_tag(self, tag: &str) -> (made: SeavanResult<Self>)
        ensures
            result_view(made) == Ok::<SeavanView, SeavanErrorView>(
                SeavanView { tag: sanitized(tag@), ..self@ },
            ),
            made matches Ok(wrap) ==> is_valid(wrap@),
    {
        proof {
            use_type_invariant(&self);
        }
        let mut wrap = self;
        wrap.tag = docker_safe_string(tag);
        Ok(wrap)
    }

    /// Specifies the registry to be used for the image instead of the
    /// default.
    ///
    /// Registries starting `docker.io` will be rejected in order to
    /// discourage use of Docker Hub as a storage mechanism.
    pub fn with_registry(self, registry: &str) -> (made: SeavanResult<Self>)
        ensures
            result_view(made) == if is_banned_registry(registry@) {
                Err(SeavanErrorView::BannedRegistryPrefix)
            } else {
                Ok(SeavanView { registry: Some(registry@), ..self@ })
            },
            made matches Ok(wrap) ==> is_valid(wrap@),
    {
        if starts_with(registry, BANNED_REGISTRY_PREFIX) {
            return Err(SeavanError::BannedRegistryPrefix);
        }
        proof {
            use_type_invariant(&self);
        }
        let mut wrap = self;
        wrap.registry = Some(registry.to_owned());
        Ok(wrap)
    }

    /// The name of the wrapped file.
    pub fn filename_str(&self) -> (name: SeavanResult<&str>)
        ensures
            result_view(name) == file_name_of(self@.path),
            !(self@.path.file_name is Absent),
    {
        proof {
            use_type_invariant(self);
        }
        match &self.path.file_name {
            PathPart::Text(text) => Ok(text.as_str()),
            PathPart::NotText => Err(SeavanError::FailedStrConversion),
            PathPart::Absent => Err(SeavanError::NoFileName(self.path.location.clone())),
        }
    }

    /// The directory of the wrapped file, in which the image is built.
    pub fn working_directory(&self) -> (directory: SeavanResult<&[u8]>)
        ensures
            result_view(directory) == directory_of(self@.path),
    {
        match &self.path.directory {
            Some(directory) => Ok(directory.as_slice()),
            None => Err(SeavanError::NoDirectory(self.path.location.clone())),
        }
    }

    /// Returns the generated repository name and tag for the container
    /// image, given the digest of the wrapped file's content.
    pub fn repository_name_and_tag(&self, digest: &ContentDigest) -> (name: SeavanResult<String>)
        ensures
            result_view(name) == name_of(self@, digest@),
            is_valid(self@),
            is_digest_text(digest@),
    {
        proof {
            use_type_invariant(self);
        }
        let hex = digest.as_str();
        let safe_filename = docker_safe_string(self.filename_str()?);
        let mut name = match &self.registry {
            Some(registry) => {
                let mut root = registry.clone();
                root.append("/");
                root.append(PACKAGE_ROOT);
                root
            },
            None => PACKAGE_ROOT.to_owned(),
        };
        name.append("/");
        name.append(hex);
        name.append("--");
        name.append(safe_filename.as_str());
        name.append(":");
        name.append(self.tag.as_str());
        Ok(name)
    }

    /// Decides the next step of creating a container image containing the
    /// wrapped file. The caller does what the step asks, records it in the
    /// progress, and asks again until the step is `Finished`: its result is
    /// the generated repository name and tag, or the reason of the failure.
    pub fn create_image(&self, progress: BuildProgress) -> (step: BuildStep)
        ensures
            step@ == next_step(self@, progress@),
    {
        match progress {
            BuildProgress::Failed(cause) => BuildStep::Finished(Err(SeavanError::IoError(cause))),
            BuildProgress::Requested => match self.filename_str() {
                Ok(_) => BuildStep::HashContent,
                Err(error) => BuildStep::Finished(Err(error)),
            },
            BuildProgress::Hashed(digest) => {
                let target = match self.repository_name_and_tag(&digest) {
                    Ok(target) => target,
                    Err(error) => { return BuildStep::Finished(Err(error)); },
                };
                let directory = match self.working_directory() {
                    Ok(directory) => directory,
                    Err(error) => { return BuildStep::Finished(Err(error)); },
                };
                let file_name = match self.filename_str() {
                    Ok(file_name) => file_name,
                    Err(error) => { return BuildStep::Finished(Err(error)); },
                };
                BuildStep::RunEngine(BuildInvocation::new(target, file_name, directory))
            },
            BuildProgress::Built(digest, output) => match self.repository_name_and_tag(&digest) {
                Ok(target) => BuildStep::Finished(output.into_result(target)),
                Err(error) => BuildStep::Finished(Err(error)),
            },
        }
    }
}

} // verus!
