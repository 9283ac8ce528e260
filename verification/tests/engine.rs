use seavan::engine::{BuildInvocation, BuildProgress, BuildStep, EngineOutput};
use seavan::error::SeavanError;
use seavan::hash::{ContentDigest, ContentHasher};
use seavan::path::{PathPart, ResolvedPath};
use seavan::Seavan;

fn resolved(directory: &str, file_name: &str) -> ResolvedPath {
    ResolvedPath {
        location: format!("{}/{}", directory, file_name),
        file_name: PathPart::Text(file_name.to_string()),
        directory: Some(directory.as_bytes().to_vec()),
    }
}

fn digest_of(content: &[u8]) -> ContentDigest {
    let mut hasher = ContentHasher::new();
    hasher.update(content);
    hasher.finalize()
}

fn exited(code: i32, stderr: &[u8]) -> EngineOutput {
    EngineOutput { exit_code: Some(code), stderr: stderr.to_vec() }
}

const HELLO_WORLD: &str = "b94d27b9934d3e08a52e52d7da7dabfac484efe37a5380ee9088f7ace2efcde9";

#[test]
fn wrap_cargo_toml() {
    // Wrap Cargo.toml - it has capital letters and a fullstop.
    let wrap = Seavan::new(Ok(resolved("/work", "Cargo.toml")))
        .unwrap()
        .with_registry("acr.azurecr.io")
        .unwrap()
        .with_tag("Some r4ndom t@g with character$")
        .unwrap();
    let expected = format!(
        "acr.azurecr.io/seavanpkg/{}--cargo-toml:some-r4ndom-t-g-with-character-",
        HELLO_WORLD
    );

    assert!(matches!(wrap.create_image(BuildProgress::Requested), BuildStep::HashContent));

    let invocation = match wrap.create_image(BuildProgress::Hashed(digest_of(b"hello world"))) {
        BuildStep::RunEngine(invocation) => invocation,
        other => panic!("expected RunEngine, got {:?}", other),
    };
    assert_eq!(invocation.program, "docker");
    assert_eq!(invocation.arguments, vec!["build", "-f", "-", "-t", expected.as_str(), "."]);
    assert_eq!(invocation.environment, ("DOCKER_BUILDKIT".to_string(), "1".to_string()));
    assert_eq!(invocation.working_directory, b"/work");
    assert_eq!(invocation.manifest, "FROM scratch\nCOPY Cargo.toml /\n");

    let built = BuildProgress::Built(digest_of(b"hello world"), exited(0, b"#1 done\n"));
    match wrap.create_image(built) {
        BuildStep::Finished(Ok(image_tag)) => assert_eq!(image_tag, expected),
        other => panic!("expected success, got {:?}", other),
    }
}

#[test]
fn manifest_names_the_file_as_it_is() {
    let invocation = BuildInvocation::new("target:tag".to_string(), "My File.TXT", b"/somewhere");
    assert_eq!(invocation.manifest, "FROM scratch\nCOPY My File.TXT /\n");
    assert_eq!(invocation.manifest.lines().count(), 2);
    assert!(invocation.manifest.ends_with('\n'));
    assert_eq!(invocation.arguments[4], "target:tag");
    assert_eq!(invocation.working_directory, b"/somewhere");
}

#[test]
fn a_failed_build_carries_the_diagnostic_output() {
    let wrap = Seavan::new(Ok(resolved("/work", "README.md"))).unwrap();
    let built = BuildProgress::Built(digest_of(b"x"), exited(1, b"no space left on device"));
    match wrap.create_image(built) {
        BuildStep::Finished(Err(error)) => {
            assert!(matches!(&error, SeavanError::DockerBuildFailure(text) if text == "no space left on device"));
            assert!(error.message().contains("no space left on device"));
            assert_eq!(error.message(), "Docker build failure: no space left on device");
        }
        other => panic!("expected a build failure, got {:?}", other),
    }
}

#[test]
fn diagnostic_output_that_is_not_text_is_replaced() {
    let output = exited(2, &[0x66, 0xff, 0xfe]);
    match output.into_result("name:tag".to_string()) {
        Err(SeavanError::DockerBuildFailure(text)) => assert_eq!(text, "No Docker stderr"),
        other => panic!("expected a build failure, got {:?}", other),
    }
}

#[test]
fn diagnostic_output_in_other_scripts_is_kept() {
    let output = exited(1, "Fehler: kein Platz übrig ✗".as_bytes());
    match output.into_result("name:tag".to_string()) {
        Err(SeavanError::DockerBuildFailure(text)) => assert_eq!(text, "Fehler: kein Platz übrig ✗"),
        other => panic!("expected a build failure, got {:?}", other),
    }
}

#[test]
fn exit_code_zero_is_success_whatever_was_written() {
    let output = exited(0, b"warning: something");
    assert_eq!(output.into_result("name:tag".to_string()).unwrap(), "name:tag");
    let output = exited(0, &[0xff]);
    assert_eq!(output.into_result("name:tag".to_string()).unwrap(), "name:tag");
}

#[test]
fn any_other_end_is_a_failure() {
    for code in [1, 2, 125, 255, -1] {
        let result = exited(code, b"failed").into_result("name:tag".to_string());
        assert!(matches!(result, Err(SeavanError::DockerBuildFailure(_))), "code {}", code);
    }
    let killed = EngineOutput { exit_code: None, stderr: b"killed".to_vec() };
    assert!(matches!(
        killed.into_result("name:tag".to_string()),
        Err(SeavanError::DockerBuildFailure(text)) if text == "killed"
    ));
}

#[test]
fn an_io_failure_ends_the_build() {
    let wrap = Seavan::new(Ok(resolved("/work", "README.md"))).unwrap();
    let cause = std::io::Error::new(std::io::ErrorKind::PermissionDenied, "denied");
    match wrap.create_image(BuildProgress::Failed(cause)) {
        BuildStep::Finished(Err(SeavanError::IoError(cause))) => {
            assert_eq!(cause.kind(), std::io::ErrorKind::PermissionDenied)
        }
        other => panic!("expected an io error, got {:?}", other),
    }
}

#[test]
fn a_build_without_a_directory_fails_after_hashing() {
    let path = ResolvedPath {
        location: "lonely".to_string(),
        file_name: PathPart::Text("lonely".to_string()),
        directory: None,
    };
    let wrap = Seavan::new(Ok(path)).unwrap();
    assert!(matches!(wrap.create_image(BuildProgress::Requested), BuildStep::HashContent));
    match wrap.create_image(BuildProgress::Hashed(digest_of(b"x"))) {
        BuildStep::Finished(Err(SeavanError::NoDirectory(location))) => assert_eq!(location, "lonely"),
        other => panic!("expected NoDirectory, got {:?}", other),
    }
}

#[test]
fn a_build_in_a_directory_that_is_not_text_runs_the_engine_there() {
    let directory = vec![0x2f, 0x77, 0xff, 0x72, 0x6b];
    let path = ResolvedPath {
        location: "/w\u{fffd}rk/README.md".to_string(),
        file_name: PathPart::Text("README.md".to_string()),
        directory: Some(directory.clone()),
    };
    let wrap = Seavan::new(Ok(path)).unwrap();
    assert!(matches!(wrap.create_image(BuildProgress::Requested), BuildStep::HashContent));
    let invocation = match wrap.create_image(BuildProgress::Hashed(digest_of(b"hello world"))) {
        BuildStep::RunEngine(invocation) => invocation,
        other => panic!("expected RunEngine, got {:?}", other),
    };
    let expected = format!("seavanpkg/{}--readme-md:latest", HELLO_WORLD);
    assert_eq!(invocation.working_directory, directory);
    assert_eq!(invocation.program, "docker");
    assert_eq!(invocation.arguments, vec!["build", "-f", "-", "-t", expected.as_str(), "."]);
    assert_eq!(invocation.environment, ("DOCKER_BUILDKIT".to_string(), "1".to_string()));
    assert_eq!(invocation.manifest, "FROM scratch\nCOPY README.md /\n");
    match wrap.create_image(BuildProgress::Built(digest_of(b"hello world"), exited(0, b""))) {
        BuildStep::Finished(Ok(built)) => assert_eq!(built, expected),
        other => panic!("expected success, got {:?}", other),
    }
}

#[test]
fn a_file_name_that_is_not_text_ends_the_build_at_once() {
    let path = ResolvedPath {
        location: "/work/?".to_string(),
        file_name: PathPart::NotText,
        directory: None,
    };
    let wrap = Seavan::new(Ok(path)).unwrap();
    assert!(matches!(
        wrap.create_image(BuildProgress::Requested),
        BuildStep::Finished(Err(SeavanError::FailedStrConversion))
    ));
    assert!(matches!(
        wrap.create_image(BuildProgress::Hashed(digest_of(b"x"))),
        BuildStep::Finished(Err(SeavanError::FailedStrConversion))
    ));
    assert!(matches!(
        wrap.create_image(BuildProgress::Built(digest_of(b"x"), exited(0, b""))),
        BuildStep::Finished(Err(SeavanError::FailedStrConversion))
    ));
}

#[test]
fn the_built_name_is_the_name_that_was_asked_for() {
    let wrap = Seavan::new(Ok(resolved("/work", "README.md"))).unwrap();
    let target = match wrap.create_image(BuildProgress::Hashed(digest_of(b"content"))) {
        BuildStep::RunEngine(invocation) => invocation.arguments[4].clone(),
        other => panic!("expected RunEngine, got {:?}", other),
    };
    let name = wrap.repository_name_and_tag(&digest_of(b"content")).unwrap();
    assert_eq!(target, name);
    match wrap.create_image(BuildProgress::Built(digest_of(b"content"), exited(0, b""))) {
        BuildStep::Finished(Ok(built)) => assert_eq!(built, name),
        other => panic!("expected success, got {:?}", other),
    }
}
