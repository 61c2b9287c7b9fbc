use errexit::digits::u32_decimal;
use errexit::{Disposition, Error, Exit, Location, Operation, SourceError, _do};

fn leaf(message: &str) -> SourceError {
    SourceError { message: message.to_string(), cause: None }
}

fn here() -> Location {
    Location { file: "src/main.rs".to_string(), line: 42, col: 7 }
}

#[test]
fn decimal_rendering() {
    assert_eq!(u32_decimal(0), "0");
    assert_eq!(u32_decimal(7), "7");
    assert_eq!(u32_decimal(10), "10");
    assert_eq!(u32_decimal(409), "409");
    assert_eq!(u32_decimal(u32::MAX), "4294967295");
}

#[test]
fn location_display() {
    assert_eq!(here().display(), "src/main.rs:42:7");
}

#[test]
fn operation_display_fixed_variants() {
    assert_eq!(Operation::GettingProjectFile.display(), "downloading project files");
    assert_eq!(Operation::Shell.display(), "replacing process with git-shell");
    assert_eq!(Operation::ParseSshKeygen.display(), "unexpected output from ssh-keygen");
}

#[test]
fn operation_display_payload_variants() {
    let address = url::Url::parse("https://example.com").unwrap().to_string();
    assert_eq!(
        Operation::JoiningProject(address).display(),
        "joining project from https://example.com/"
    );
    assert_eq!(Operation::Generic("checking the key".to_string()).display(), "checking the key");
    assert_eq!(
        Operation::File("reading".to_string(), "/tmp/x".to_string()).display(),
        "reading in \"/tmp/x\""
    );
}

#[test]
fn file_path_debug_escaping() {
    let paths = vec![
        "/tmp/x",
        "a\"b\\c",
        "tab\tsep",
        "nl\nend",
        "cr\rend",
        "nul\0end",
        "ctl\x01\x1f\x7fend",
        "c1\u{85}\u{9f}end",
        "h\u{e9}llo\u{2192}",
    ];
    for path in paths {
        let shown = Operation::File("reading".to_string(), path.to_string()).display();
        assert_eq!(shown, format!("reading in {:?}", path));
    }
}

#[test]
fn operation_display_deterministic_and_nonempty() {
    let ops = vec![
        Operation::GettingProjectFile,
        Operation::JoiningProject("https://example.com/".to_string()),
        Operation::Generic("migrating".to_string()),
        Operation::File("writing".to_string(), "a.txt".to_string()),
        Operation::Shell,
        Operation::ParseSshKeygen,
    ];
    for op in &ops {
        assert!(!op.display().is_empty());
        assert_eq!(op.display(), op.clone().display());
    }
}

#[test]
fn capture_wraps_the_source() {
    let op = Operation::GettingProjectFile;
    let capture = op.capture(None);
    let err: Error<u8> = capture.apply(leaf("boom"));
    assert_eq!(err.display(), "IO error while downloading project files: boom");
    assert!(err.display().contains(&op.display()));
    let source = err.source().unwrap();
    assert_eq!(source.display(), "boom");
    assert!(source.source().is_none());
}

#[test]
fn capture_records_the_location_it_was_given() {
    let op = Operation::Shell;
    let with_loc: Error<u8> = op.capture(Some(here())).apply(leaf("exec failed"));
    assert_eq!(
        with_loc.display(),
        "IO error while replacing process with git-shell: exec failed(in src/main.rs:42:7)"
    );
    let without: Error<u8> = op.capture(None).apply(leaf("exec failed"));
    assert_eq!(without.display(), "IO error while replacing process with git-shell: exec failed");
}

#[test]
fn capture_location_policy_holds_for_every_variant() {
    let ops = vec![
        Operation::GettingProjectFile,
        Operation::JoiningProject("https://example.com/".to_string()),
        Operation::Generic("migrating".to_string()),
        Operation::File("writing".to_string(), "a.txt".to_string()),
        Operation::Shell,
        Operation::ParseSshKeygen,
    ];
    for op in &ops {
        let with_loc: Error<u8> = op.capture(Some(here())).apply(leaf("x"));
        assert!(with_loc.display().ends_with("(in src/main.rs:42:7)"));
        let without: Error<u8> = op.capture(None).apply(leaf("x"));
        assert!(!without.display().contains("(in "));
    }
}

#[test]
fn file_open_failure_rendering() {
    let op = Operation::File("reading".to_string(), "/tmp/x".to_string());
    let err: Error<u8> = op.capture(None).apply(leaf("No such file or directory (os error 2)"));
    assert_eq!(
        err.display(),
        "IO error while reading in \"/tmp/x\": No such file or directory (os error 2)"
    );
    let with_loc: Error<u8> =
        op.capture(Some(here())).apply(leaf("No such file or directory (os error 2)"));
    assert_eq!(
        with_loc.display(),
        "IO error while reading in \"/tmp/x\": No such file or directory (os error 2)(in src/main.rs:42:7)"
    );
}

#[test]
fn the_capture_factory_is_reusable() {
    let capture = Operation::GettingProjectFile.capture(None);
    let first: Error<u8> = capture.apply(leaf("timed out"));
    let second: Error<u8> = capture.apply(leaf("connection reset"));
    assert_eq!(first.display(), "IO error while downloading project files: timed out");
    assert_eq!(second.display(), "IO error while downloading project files: connection reset");
}

#[test]
fn source_walk_reaches_the_end() {
    let chain = SourceError {
        message: "outer".to_string(),
        cause: Some(Box::new(SourceError {
            message: "middle".to_string(),
            cause: Some(Box::new(leaf("root"))),
        })),
    };
    let err: Error<u8> = Operation::Generic("composing".to_string()).capture(None).apply(chain);
    let mut seen = Vec::new();
    let mut cur = err.source();
    while let Some(s) = cur {
        seen.push(s.display());
        cur = s.source();
    }
    assert_eq!(seen, vec!["outer", "middle", "root"]);
}

#[test]
fn terminal_variants_have_no_source() {
    let unknown: Error<u8> = Error::UnknownSshKeytype("ed448".to_string());
    assert!(unknown.source().is_none());
    let unsharable: Error<u8> = Error::UnsharableProject;
    assert!(unsharable.source().is_none());
    let bug: Error<u8> = Error::bug(3);
    assert!(bug.source().is_none());
}

#[test]
fn report_success_prints_nothing() {
    let report = Exit::<u8>::Success.report();
    assert!(report.lines.is_empty());
    assert_eq!(report.disposition, Disposition::Success);
    assert_eq!(report.disposition.exit_code(), Some(0));
    assert!(report.payload.is_none());
}

#[test]
fn report_unsharable_project() {
    let report = Exit::<u8>::Error(Error::UnsharableProject).report();
    assert_eq!(
        report.lines,
        vec![
            "Couldn't determine any interface to share the project to.\nHint: the SSH Keys is restricted to your local networks, which renders the key useless with no allowed source address."
        ]
    );
    assert_eq!(report.lines[0].lines().count(), 2);
    assert_eq!(report.disposition, Disposition::Failure);
    assert_eq!(report.disposition.exit_code(), Some(1));
}

#[test]
fn report_unknown_ssh_keytype() {
    let report = Exit::<u8>::Error(Error::UnknownSshKeytype("ed448".to_string())).report();
    assert_eq!(report.lines, vec!["Unknown SSH key type: ed448"]);
    assert_eq!(report.disposition.exit_code(), Some(1));
}

#[test]
fn report_prints_one_line_per_chain_link() {
    let chain = SourceError {
        message: "middle".to_string(),
        cause: Some(Box::new(leaf("root"))),
    };
    let err: Error<u8> =
        Operation::File("reading".to_string(), "/tmp/x".to_string()).capture(None).apply(chain);
    let report = Exit::Error(err).report();
    assert_eq!(
        report.lines,
        vec!["IO error while reading in \"/tmp/x\": middle", "middle", "root"]
    );
    assert_eq!(report.disposition, Disposition::Failure);
}

#[test]
fn report_bug_escalates() {
    let report = Exit::<&str>::Bug("panic payload").report();
    assert_eq!(
        report.lines,
        vec!["Unhandled termination. We would appreciate a bug report for this"]
    );
    assert_eq!(report.disposition, Disposition::Abort);
    assert_eq!(report.disposition.exit_code(), None);
    assert_eq!(report.payload, Some("panic payload"));
}

#[test]
fn bug_error_displays_the_fixed_message() {
    let bug: Error<u8> = Error::bug(9);
    assert_eq!(bug.display(), "Unhandled termination. We would appreciate a bug report for this");
}

#[test]
fn outcomes_are_classified() {
    let ok = Exit::<u8>::from_outcome(Ok(Ok(())));
    assert!(matches!(ok, Exit::Success));
    let err = Exit::<u8>::from_outcome(Ok(Err(Error::UnsharableProject)));
    assert!(matches!(err, Exit::Error(Error::UnsharableProject)));
    let bug = Exit::<u8>::from_outcome(Err(5));
    assert!(matches!(bug, Exit::Bug(5)));
}

#[test]
fn the_entry_point_succeeds() {
    let outcome: Result<(), Error<u8>> = _do();
    assert!(outcome.is_ok());
}
