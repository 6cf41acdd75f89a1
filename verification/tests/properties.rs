use whitespace_format::change::Change;
use whitespace_format::change::ChangeType;
use whitespace_format::cli::NonStandardWhitespaceReplacementMode;
use whitespace_format::cli::OutputNewLineMarkerMode;
use whitespace_format::cli::TrivialFileReplacementMode;
use whitespace_format::engine::modify_content;
use whitespace_format::engine::process;
use whitespace_format::engine::Options;
use whitespace_format::error::Error;
use whitespace_format::exit::run_status;
use whitespace_format::exit::ExitCode;

/// Applies the engine to `input` and returns the output bytes and changes.
fn run(input: &[u8], options: &Options) -> (Vec<u8>, Vec<Change>) {
    let mut output: Vec<u8> = Vec::new();
    let changes = modify_content(input, options, &mut output);
    (output, changes)
}

/// Running the engine a second time on its own output must emit the same
/// bytes again and report nothing.
fn check_idempotent(input: &[u8], options: &Options) {
    let (first, _) = run(input, options);
    let (second, changes_again) = run(&first, options);
    assert_eq!(second, first);
    assert!(changes_again.is_empty());
}

#[test]
fn test_idempotence_on_concrete_inputs() {
    let all_rules = Options::new()
        .new_line_marker(OutputNewLineMarkerMode::Linux)
        .add_new_line_marker_at_end_of_file()
        .normalize_new_line_markers()
        .remove_trailing_whitespace()
        .remove_trailing_empty_lines()
        .normalize_empty_files(TrivialFileReplacementMode::OneLine)
        .normalize_whitespace_only_files(TrivialFileReplacementMode::OneLine)
        .normalize_non_standard_whitespace(NonStandardWhitespaceReplacementMode::Remove)
        .replace_tabs_with_spaces(4);
    check_idempotent(b"hello\r\n\rworld  ", &all_rules);
    check_idempotent(b"hello world   \x0C  \n\n \x0B \n", &all_rules);
    check_idempotent(b"\thello\r\n\r\n\n\n", &all_rules);
    check_idempotent(b"", &all_rules);
    check_idempotent(b" \t \r\n ", &all_rules);

    let remove_markers = Options::new()
        .remove_new_line_marker_from_end_of_file()
        .remove_trailing_empty_lines()
        .remove_trailing_whitespace();
    check_idempotent(b"hello  \n\r\n\r", &remove_markers);
    check_idempotent(b"hello\nworld\n\n\n", &remove_markers);
}

#[test]
fn test_idempotence_with_marker_normalization() {
    let options = Options::new()
        .normalize_new_line_markers()
        .new_line_marker(OutputNewLineMarkerMode::Windows)
        .add_new_line_marker_at_end_of_file()
        .replace_tabs_with_spaces(0)
        .remove_trailing_empty_lines();
    check_idempotent(b"hello\r\n\rworld\tx\n\n\n", &options);
    check_idempotent(b"a\rb\nc\r\nd", &options);
}

#[test]
fn test_trailing_whitespace_removal_keeps_file_terminated() {
    // When the final line holds only whitespace, the trailing-whitespace
    // rule rewinds past that line's start to the last non-whitespace byte,
    // taking the previous line's marker with it. The add-marker rule then
    // sees that the output no longer ends at a marker boundary and appends
    // the resolved marker, so a single pass leaves nothing for a second
    // pass to do.
    let options = Options::new()
        .remove_trailing_whitespace()
        .add_new_line_marker_at_end_of_file();
    let (first, changes) = run(b"a\n  ", &options);
    assert_eq!(first, b"a\n".to_vec());
    assert_eq!(
        changes,
        vec![
            Change::new(2, ChangeType::RemovedTrailingWhitespace),
            Change::new(2, ChangeType::NewLineMarkerAddedToEndOfFile),
        ]
    );
    let (second, changes_again) = run(&first, &options);
    assert_eq!(second, first);
    assert!(changes_again.is_empty());
}

#[test]
fn test_dry_run_and_apply_consistency() {
    let options = Options::new().remove_trailing_whitespace();

    // A file that needs work: the dry run reports changes and materializes
    // nothing; the real run returns the formatted bytes.
    let (bytes, changes) = process(b"hello \n", &options, true);
    assert!(bytes.is_none());
    assert_eq!(changes.len(), 1);
    let (bytes, changes) = process(b"hello \n", &options, false);
    assert_eq!(bytes.unwrap(), b"hello\n".to_vec());
    assert_eq!(changes.len(), 1);

    // A clean file: no changes are reported and no bytes are materialized,
    // so the file on disk stays byte-for-byte identical.
    let (bytes, changes) = process(b"hello\n", &options, true);
    assert!(bytes.is_none());
    assert!(changes.is_empty());
    let (bytes, changes) = process(b"hello\n", &options, false);
    assert!(bytes.is_none());
    assert!(changes.is_empty());
}

#[test]
fn test_empty_file_one_line_linux() {
    let options = Options::new()
        .normalize_empty_files(TrivialFileReplacementMode::OneLine)
        .new_line_marker(OutputNewLineMarkerMode::Linux);
    let (output, changes) = run(b"", &options);
    assert_eq!(output, b"\n".to_vec());
    assert_eq!(
        changes,
        vec![Change::new(1, ChangeType::ReplacedEmptyFileWithOneLine)]
    );
}

#[test]
fn test_whitespace_only_one_line_is_noop_on_resolved_marker() {
    // The input is already exactly the single resolved marker sequence, so
    // the one-line policy must not report a change.
    let options =
        Options::new().normalize_whitespace_only_files(TrivialFileReplacementMode::OneLine);
    let (output, changes) = run(b"\r", &options);
    assert_eq!(output, b"\r".to_vec());
    assert!(changes.is_empty());

    let options = options.new_line_marker(OutputNewLineMarkerMode::Windows);
    let (output, changes) = run(b"\r\n", &options);
    assert_eq!(output, b"\r\n".to_vec());
    assert!(changes.is_empty());
}

#[test]
fn test_error_messages() {
    assert_eq!(
        Error::FileNotFound(String::from("a.txt")).message(),
        "File not found a.txt."
    );
    assert_eq!(
        Error::FailedToReadDirectory(String::from("src")).message(),
        "Failed to read directory src."
    );
    assert_eq!(
        Error::FailedToReadDirectoryEntry(String::from("src")).message(),
        "Failed to read an entry in directory src."
    );
    assert_eq!(
        Error::InvalidRegularExpression(String::from("](")).message(),
        "Invalid regular expression ](."
    );
    assert_eq!(
        Error::CannotReadFile(String::from("a.txt")).message(),
        "Cannot read a.txt"
    );
    assert_eq!(
        Error::CannotWriteFile(String::from("a.txt")).message(),
        "Cannot write a.txt"
    );
}

#[test]
fn test_exit_codes() {
    assert_eq!(ExitCode::FileNotFound.code(), 1);
    assert_eq!(ExitCode::FailedToReadDirectory.code(), 2);
    assert_eq!(ExitCode::FailedToReadDirectoryEntry.code(), 3);
    assert_eq!(ExitCode::FailedToReadFile.code(), 4);
}

#[test]
fn test_run_status() {
    assert_eq!(run_status(true, 0), 0);
    assert_eq!(run_status(true, 3), 1);
    assert_eq!(run_status(false, 0), 0);
    assert_eq!(run_status(false, 3), 0);
}

#[test]
fn test_get_options() {
    let arguments = whitespace_format::cli::CommandLineArguments {
        check_only: true,
        follow_symlinks: false,
        exclude: String::from("$."),
        color: whitespace_format::cli::ColoredOutputMode::Auto,
        new_line_marker: OutputNewLineMarkerMode::Windows,
        add_new_line_marker_at_end_of_file: true,
        remove_new_line_marker_from_end_of_file: false,
        normalize_new_line_markers: true,
        remove_trailing_whitespace: true,
        remove_leading_empty_lines: false,
        remove_trailing_empty_lines: true,
        normalize_empty_files: TrivialFileReplacementMode::Ignore,
        normalize_whitespace_only_files: TrivialFileReplacementMode::Empty,
        normalize_non_standard_whitespace: NonStandardWhitespaceReplacementMode::ReplaceWithSpace,
        replace_tabs_with_spaces: 8,
        paths: vec![String::from("src/")],
    };
    let options = arguments.get_options();
    let (output, changes) = run(b"hello\rworld", &options);
    assert_eq!(output, b"hello\r\nworld\r\n".to_vec());
    assert_eq!(changes.len(), 2);
}
