use testjs::artifact::{DirectoryEntry, Selection};
use testjs::config::Config;
use testjs::failure::{ErrorKind, Failure};
use testjs::pipeline::{locate_project, Assembled, Built, Configured, Discovered, Located};
use testjs::process::{ProcessEvent, ProcessResult};
use testjs::reading::ReadOutcome;

fn exited(status: i32, stdout: &str) -> ProcessEvent {
    ProcessEvent::Exited(ProcessResult {
        status: Some(status),
        stdout: stdout.as_bytes().to_vec(),
        stderr: Vec::new(),
    })
}

fn file(contents: &str) -> ReadOutcome {
    ReadOutcome::Contents(contents.as_bytes().to_vec())
}

fn listed(name: &str, modified_at: i128) -> DirectoryEntry {
    DirectoryEntry { name: name.to_string(), modified_at: Some(modified_at) }
}

fn project(prelude: Option<&str>) -> Config {
    Config {
        runtime_path: "node".to_string(),
        target_id: "asmjs-unknown-emscripten".to_string(),
        prelude_path: prelude.map(|p| p.to_string()),
    }
}

#[test]
fn run_without_metadata_hands_the_artifact_to_the_default_runtime() {
    let located = locate_project(exited(0, "{\"root\":\"/proj/Cargo.toml\"}")).unwrap();
    assert_eq!(located.manifest, "/proj/Cargo.toml");
    assert_eq!(located.root, "/proj");
    let configured = located.configure(file("[package]\nname = \"demo\"\n")).unwrap();
    assert_eq!(configured.config, project(None));
    assert_eq!(
        configured.build_arguments(),
        vec!["test", "--target", "asmjs-unknown-emscripten", "--no-run"]
    );
    let built = configured.build(exited(0, "")).unwrap();
    assert_eq!(built.output_dir(), "/proj/target/asmjs-unknown-emscripten/debug");
    let listing = vec![listed("suite-ab12cd34.js", 10)];
    let discovered = built.discover(Some(&listing)).unwrap();
    assert_eq!(
        discovered.selection,
        Selection {
            path: "/proj/target/asmjs-unknown-emscripten/debug/suite-ab12cd34.js".to_string(),
            multiple: false,
        }
    );
    assert_eq!(discovered.prelude_file(), None);
    let assembled = discovered.assemble(None, file("console.log(\"ok\")")).unwrap();
    assert_eq!(assembled.runtime_path, "node");
    assert_eq!(assembled.script, "console.log(\"ok\")");
    assert_eq!(assembled.finish(exited(0, "")), Ok(0));
}

#[test]
fn run_with_two_artifacts_takes_the_newer_and_warns() {
    let built = Built { root: "/proj".to_string(), config: project(None) };
    let listing = vec![listed("suite-aaaa1111.js", 100), listed("suite-bbbb2222.js", 200)];
    let discovered = built.discover(Some(&listing)).unwrap();
    assert_eq!(
        discovered.selection.path,
        "/proj/target/asmjs-unknown-emscripten/debug/suite-bbbb2222.js"
    );
    assert!(discovered.selection.multiple);
    assert_eq!(discovered.selection.warnings().len(), 2);
}

#[test]
fn run_with_a_prelude_puts_it_before_the_artifact() {
    let discovered = Discovered {
        root: "/proj".to_string(),
        config: project(Some("tests/pre.js")),
        selection: Selection { path: "/proj/t/a-1.js".to_string(), multiple: false },
    };
    assert_eq!(discovered.prelude_file(), Some("/proj/tests/pre.js".to_string()));
    let assembled = discovered.assemble(Some(file("var x;")), file("run(x)")).unwrap();
    assert_eq!(assembled, Assembled { runtime_path: "node".to_string(), script: "var x;\nrun(x)".to_string() });
}

#[test]
fn prelude_that_cannot_be_read_fails_before_the_artifact() {
    let discovered = Discovered {
        root: "/proj".to_string(),
        config: project(Some("pre.js")),
        selection: Selection { path: "/proj/t/a-1.js".to_string(), multiple: false },
    };
    let failure = discovered.clone().assemble(Some(ReadOutcome::NotOpened), ReadOutcome::NotOpened).unwrap_err();
    assert_eq!(failure, Failure::new(ErrorKind::Io, "Unable to open pre.js".to_string()));
    let failure = discovered.clone().assemble(None, file("a")).unwrap_err();
    assert_eq!(failure, Failure::new(ErrorKind::Io, "Unable to open pre.js".to_string()));
    let failure = discovered.clone().assemble(Some(ReadOutcome::Contents(vec![0xff])), file("a")).unwrap_err();
    assert_eq!(failure, Failure::new(ErrorKind::Io, "Unable to read pre.js".to_string()));
    let failure = discovered.assemble(Some(file("p")), ReadOutcome::NotRead).unwrap_err();
    assert_eq!(failure, Failure::new(ErrorKind::Io, "Unable to read /proj/t/a-1.js".to_string()));
}

#[test]
fn prelude_that_is_not_configured_is_passed_over() {
    let discovered = Discovered {
        root: "/proj".to_string(),
        config: project(None),
        selection: Selection { path: "/proj/t/a-1.js".to_string(), multiple: false },
    };
    let assembled = discovered.assemble(Some(file("ignored")), file("a")).unwrap();
    assert_eq!(assembled.script, "a");
}

#[test]
fn artifact_that_cannot_be_read_is_an_io_error() {
    let discovered = Discovered {
        root: "/proj".to_string(),
        config: project(None),
        selection: Selection { path: "/proj/t/a-1.js".to_string(), multiple: false },
    };
    let failure = discovered.assemble(None, ReadOutcome::NotOpened).unwrap_err();
    assert_eq!(failure, Failure::new(ErrorKind::Io, "Unable to open /proj/t/a-1.js".to_string()));
}

#[test]
fn report_without_a_directory_is_a_configuration_error() {
    let failure = locate_project(exited(0, "{\"root\":\"\"}")).unwrap_err();
    assert_eq!(failure, Failure::new(ErrorKind::Configuration, "Cannot find the directory of ".to_string()));
    let failure = locate_project(exited(0, "{\"root\":\"/\"}")).unwrap_err();
    assert_eq!(failure, Failure::new(ErrorKind::Configuration, "Cannot find the directory of /".to_string()));
    let failure = locate_project(exited(0, "{}")).unwrap_err();
    assert_eq!(failure.kind(), ErrorKind::Configuration);
    let failure = locate_project(ProcessEvent::SpawnFailed).unwrap_err();
    assert_eq!(failure.kind(), ErrorKind::Process);
}

#[test]
fn failed_configuration_ends_the_run() {
    let located = Located { manifest: "/proj/Cargo.toml".to_string(), root: "/proj".to_string() };
    let failure = located.clone().configure(ReadOutcome::NotOpened).unwrap_err();
    assert_eq!(failure, Failure::new(ErrorKind::Configuration, "Unable to open /proj/Cargo.toml".to_string()));
    let failure = located.configure(file("[package.metadata.testjs]\ntarget = 1\n")).unwrap_err();
    assert_eq!(failure, Failure::new(ErrorKind::Configuration, "Invalid config for target".to_string()));
}

#[test]
fn failed_build_ends_the_run() {
    let configured = Configured { root: "/proj".to_string(), config: project(None) };
    let failure = configured.clone().build(exited(101, "")).unwrap_err();
    assert_eq!(failure.kind(), ErrorKind::Build);
    assert_eq!(
        failure.message(),
        "Command cargo test --target asmjs-unknown-emscripten --no-run exited with status 101"
    );
    assert_eq!(
        configured.build(exited(0, "")),
        Ok(Built { root: "/proj".to_string(), config: project(None) })
    );
}

#[test]
fn failed_discovery_ends_the_run() {
    let built = Built { root: "/proj".to_string(), config: project(None) };
    let failure = built.clone().discover(None).unwrap_err();
    assert_eq!(
        failure,
        Failure::new(
            ErrorKind::Discovery,
            "Directory /proj/target/asmjs-unknown-emscripten/debug not found".to_string()
        )
    );
    let failure = built.discover(Some(&vec![listed("notes.txt", 1)])).unwrap_err();
    assert_eq!(
        failure,
        Failure::new(
            ErrorKind::Discovery,
            "No test script found in /proj/target/asmjs-unknown-emscripten/debug".to_string()
        )
    );
}

#[test]
fn runtime_status_ends_the_run() {
    let assembled = Assembled { runtime_path: "node".to_string(), script: "x".to_string() };
    assert_eq!(assembled.clone().finish(exited(4, "")), Ok(4));
    let failure = assembled.finish(ProcessEvent::SpawnFailed).unwrap_err();
    assert_eq!(failure, Failure::new(ErrorKind::Process, "Cannot execute node".to_string()));
}
