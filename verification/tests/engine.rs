use whitespace_format::change::Change;
use whitespace_format::change::ChangeType;
use whitespace_format::cli::NonStandardWhitespaceReplacementMode;
use whitespace_format::cli::OutputNewLineMarkerMode;
use whitespace_format::cli::TrivialFileReplacementMode;
use whitespace_format::engine::find_most_common_new_line_marker;
use whitespace_format::engine::is_file_whitespace;
use whitespace_format::engine::modify_content;
use whitespace_format::engine::NewLineMarker;
use whitespace_format::engine::Options;

#[test]
fn test_is_file_whitespace() {
    assert_eq!(is_file_whitespace(&[]), true);
    assert_eq!(is_file_whitespace(b"    "), true);
    assert_eq!(is_file_whitespace(b"\n\n\n"), true);
    assert_eq!(is_file_whitespace(b"\r\r\r"), true);
    assert_eq!(is_file_whitespace(b" \t\n\r"), true);
    assert_eq!(is_file_whitespace(b"hello"), false);
    assert_eq!(is_file_whitespace(b"hello world\n"), false);
    assert_eq!(is_file_whitespace(b"\n\t \x0B \x0C \n  "), true);
}

#[test]
fn test_find_most_common_new_line_marker() {
    assert_eq!(find_most_common_new_line_marker(&[]), NewLineMarker::Linux);
    assert_eq!(
        find_most_common_new_line_marker(b"\n"),
        NewLineMarker::Linux
    );
    assert_eq!(
        find_most_common_new_line_marker(b"\r"),
        NewLineMarker::MacOs
    );
    assert_eq!(
        find_most_common_new_line_marker(b"\r\n"),
        NewLineMarker::Windows
    );
    assert_eq!(
        find_most_common_new_line_marker(b"hello world"),
        NewLineMarker::Linux
    );
    assert_eq!(
        find_most_common_new_line_marker(b"a\rb\nc\n"),
        NewLineMarker::Linux
    );
    assert_eq!(
        find_most_common_new_line_marker(b"a\rb\rc\r\n"),
        NewLineMarker::MacOs
    );
    assert_eq!(
        find_most_common_new_line_marker(b"a\r\nb\r\nc\n"),
        NewLineMarker::Windows
    );
    assert_eq!(
        find_most_common_new_line_marker(b"\n\n\r\r\r\n\r\n"),
        NewLineMarker::Linux,
    );
    assert_eq!(
        find_most_common_new_line_marker(b"\n\r\r\r\n\r\n"),
        NewLineMarker::Windows,
    );
    assert_eq!(
        find_most_common_new_line_marker(b"\n\r\r\r\n"),
        NewLineMarker::MacOs,
    );
}

#[test]
fn test_modify_content_do_nothing() {
    let options: Options = Options::new();
    let mut output = Vec::new();
    let changes = modify_content(b"hello\r\n\rworld  ", &options, &mut output);
    assert_eq!(output, b"hello\r\n\rworld  ");
    assert!(changes.is_empty());
}

#[test]
fn test_modify_content_do_nothing_whitespace_only_file() {
    let options: Options = Options::new();
    let mut output = Vec::new();
    let changes = modify_content(b"  ", &options, &mut output);
    assert_eq!(output, b"  ");
    assert!(changes.is_empty());
}

#[test]
fn test_modify_content_do_nothing_empty_file() {
    let options: Options = Options::new();
    let mut output = Vec::new();
    let changes = modify_content(b"", &options, &mut output);
    assert_eq!(output, b"");
    assert!(changes.is_empty());
}

#[test]
fn test_modify_content_add_new_line_marker_auto() {
    let options: Options = Options::new().add_new_line_marker_at_end_of_file();
    let mut output = Vec::new();
    let changes = modify_content(b"hello\r\n\rworld  ", &options, &mut output);
    assert_eq!(output, b"hello\r\n\rworld  \r\n");
    assert_eq!(
        changes,
        vec![Change::new(3, ChangeType::NewLineMarkerAddedToEndOfFile)]
    );
}

#[test]
fn test_modify_content_add_new_line_marker_linux() {
    let options: Options = Options::new()
        .add_new_line_marker_at_end_of_file()
        .new_line_marker(OutputNewLineMarkerMode::Linux);
    let mut output = Vec::new();
    let changes = modify_content(b"hello\r\n\rworld  ", &options, &mut output);
    assert_eq!(output, b"hello\r\n\rworld  \n");
    assert_eq!(
        changes,
        vec![Change::new(3, ChangeType::NewLineMarkerAddedToEndOfFile)]
    );
}

#[test]
fn test_modify_content_add_new_line_marker_macos() {
    let options: Options = Options::new()
        .add_new_line_marker_at_end_of_file()
        .new_line_marker(OutputNewLineMarkerMode::MacOs);
    let mut output = Vec::new();
    let changes = modify_content(b"hello\r\n\rworld  ", &options, &mut output);
    assert_eq!(output, b"hello\r\n\rworld  \r");
    assert_eq!(
        changes,
        vec![Change::new(3, ChangeType::NewLineMarkerAddedToEndOfFile)]
    );
}

#[test]
fn test_modify_content_add_new_line_marker_windows() {
    let options: Options = Options::new()
        .add_new_line_marker_at_end_of_file()
        .new_line_marker(OutputNewLineMarkerMode::Windows);
    let mut output = Vec::new();
    let changes = modify_content(b"hello\r\n\rworld  ", &options, &mut output);
    assert_eq!(output, b"hello\r\n\rworld  \r\n");
    assert_eq!(
        changes,
        vec![Change::new(3, ChangeType::NewLineMarkerAddedToEndOfFile)]
    );
}

#[test]
fn test_modify_content_remove_new_line_marker_from_end_of_file_1() {
    let options: Options = Options::new().remove_new_line_marker_from_end_of_file();
    let mut output = Vec::new();
    let changes = modify_content(b"hello\r\n\rworld  \n", &options, &mut output);
    assert_eq!(output, b"hello\r\n\rworld  ");
    assert_eq!(
        changes,
        vec![Change::new(
            3,
            ChangeType::NewLineMarkerRemovedFromEndOfFile
        )]
    );
}

#[test]
fn test_modify_content_remove_new_line_marker_from_end_of_file_2() {
    let options: Options = Options::new().remove_new_line_marker_from_end_of_file();
    let mut output = Vec::new();
    let changes = modify_content(b"hello", &options, &mut output);
    assert_eq!(output, b"hello");
    assert_eq!(changes, vec![]);
}

#[test]
fn test_modify_content_remove_new_line_marker_from_end_of_file_3() {
    let options: Options = Options::new().remove_new_line_marker_from_end_of_file();
    let mut output = Vec::new();
    let changes = modify_content(b"", &options, &mut output);
    assert_eq!(output, b"");
    assert_eq!(changes, vec![]);
}

#[test]
fn test_modify_content_remove_new_line_marker_from_end_of_file_4() {
    let options: Options = Options::new().remove_new_line_marker_from_end_of_file();
    let mut output = Vec::new();
    let changes = modify_content(b"hello  \n\r\n\r", &options, &mut output);
    assert_eq!(output, b"hello  ");
    assert_eq!(
        changes,
        vec![Change::new(
            1,
            ChangeType::NewLineMarkerRemovedFromEndOfFile
        ),]
    );
}

#[test]
fn test_modify_content_normalize_new_line_markers_auto() {
    let options: Options = Options::new().normalize_new_line_markers();
    let mut output = Vec::new();
    let changes = modify_content(b"hello\r\n\rworld  \r\n", &options, &mut output);
    assert_eq!(output, b"hello\r\n\r\nworld  \r\n");
    assert_eq!(
        changes,
        vec![Change::new(
            2,
            ChangeType::ReplacedNewLineMarker(NewLineMarker::MacOs, NewLineMarker::Windows)
        )]
    );
}

#[test]
fn test_modify_content_normalize_new_line_markers_linux() {
    let options: Options = Options::new()
        .normalize_new_line_markers()
        .new_line_marker(OutputNewLineMarkerMode::Linux);
    let mut output = Vec::new();
    let changes = modify_content(b"hello\r\n\rworld  \r\n", &options, &mut output);
    assert_eq!(output, b"hello\n\nworld  \n");
    assert_eq!(
        changes,
        vec![
            Change::new(
                1,
                ChangeType::ReplacedNewLineMarker(NewLineMarker::Windows, NewLineMarker::Linux)
            ),
            Change::new(
                2,
                ChangeType::ReplacedNewLineMarker(NewLineMarker::MacOs, NewLineMarker::Linux)
            ),
            Change::new(
                3,
                ChangeType::ReplacedNewLineMarker(NewLineMarker::Windows, NewLineMarker::Linux)
            ),
        ]
    );
}

#[test]
fn test_modify_content_normalize_new_line_markers_macos() {
    let options: Options = Options::new()
        .normalize_new_line_markers()
        .new_line_marker(OutputNewLineMarkerMode::MacOs);
    let mut output = Vec::new();
    let changes = modify_content(b"hello\r\n\rworld  \r\n", &options, &mut output);
    assert_eq!(output, b"hello\r\rworld  \r");
    assert_eq!(
        changes,
        vec![
            Change::new(
                1,
                ChangeType::ReplacedNewLineMarker(NewLineMarker::Windows, NewLineMarker::MacOs)
            ),
            Change::new(
                3,
                ChangeType::ReplacedNewLineMarker(NewLineMarker::Windows, NewLineMarker::MacOs)
            ),
        ]
    );
}

#[test]
fn test_modify_content_normalize_new_line_markers_windows() {
    let options: Options = Options::new()
        .normalize_new_line_markers()
        .new_line_marker(OutputNewLineMarkerMode::Windows);
    let mut output = Vec::new();
    let changes = modify_content(b"hello\r\n\rworld  \r\n", &options, &mut output);
    assert_eq!(output, b"hello\r\n\r\nworld  \r\n");
    assert_eq!(
        changes,
        vec![Change::new(
            2,
            ChangeType::ReplacedNewLineMarker(NewLineMarker::MacOs, NewLineMarker::Windows)
        )]
    );
}

#[test]
fn test_modify_content_remove_trailing_empty_lines() {
    let options: Options = Options::new().remove_trailing_empty_lines();
    let mut output = Vec::new();
    let changes = modify_content(b"hello\r\n\rworld\r\n\n\n\n\n\n", &options, &mut output);
    assert_eq!(output, b"hello\r\n\rworld\r\n");
    assert_eq!(changes, vec![Change::new(4, ChangeType::RemovedEmptyLines)]);
}

#[test]
fn test_modify_content_remove_trailing_whitespace_1() {
    let options: Options = Options::new().remove_trailing_whitespace();
    let mut output = Vec::new();
    let changes = modify_content(b"hello world   ", &options, &mut output);
    assert_eq!(output, b"hello world");
    assert_eq!(
        changes,
        vec![Change::new(1, ChangeType::RemovedTrailingWhitespace)]
    );
}

#[test]
fn test_modify_content_remove_trailing_whitespace_2() {
    let options: Options = Options::new().remove_trailing_whitespace();
    let mut output = Vec::new();
    let changes = modify_content(b"hello\r\n\rworld   ", &options, &mut output);
    assert_eq!(output, b"hello\r\n\rworld");
    assert_eq!(
        changes,
        vec![Change::new(3, ChangeType::RemovedTrailingWhitespace)]
    );
}

#[test]
fn test_modify_content_remove_trailing_whitespace_3() {
    let options: Options = Options::new().remove_trailing_whitespace();
    let mut output = Vec::new();
    let changes = modify_content(b"hello \t  \r\n \t  \rworld   ", &options, &mut output);
    assert_eq!(output, b"hello\r\n\rworld");
    assert_eq!(
        changes,
        vec![
            Change::new(1, ChangeType::RemovedTrailingWhitespace),
            Change::new(2, ChangeType::RemovedTrailingWhitespace),
            Change::new(3, ChangeType::RemovedTrailingWhitespace)
        ]
    );
}

#[test]
fn test_modify_content_remove_trailing_whitespace_4() {
    let options: Options = Options::new().remove_trailing_whitespace();
    let mut output = Vec::new();
    let changes = modify_content(b"hello world   \n\n   \n", &options, &mut output);
    assert_eq!(output, b"hello world\n\n\n");
    assert_eq!(
        changes,
        vec![
            Change::new(1, ChangeType::RemovedTrailingWhitespace),
            Change::new(3, ChangeType::RemovedTrailingWhitespace),
        ]
    );
}

#[test]
fn test_modify_content_remove_trailing_whitespace_5() {
    let options: Options = Options::new().remove_trailing_whitespace();
    let mut output = Vec::new();
    let changes = modify_content(b"hello world   \x0C  \n\n \x0B \n", &options, &mut output);
    assert_eq!(output, b"hello world\n\n\n");
    assert_eq!(
        changes,
        vec![
            Change::new(1, ChangeType::RemovedTrailingWhitespace),
            Change::new(3, ChangeType::RemovedTrailingWhitespace),
        ]
    );
}

#[test]
fn test_modify_content_remove_trailing_whitespace_and_normalize_non_standard_whitespace_1() {
    let options: Options = Options::new()
        .remove_trailing_whitespace()
        .normalize_non_standard_whitespace(NonStandardWhitespaceReplacementMode::Remove);
    let mut output = Vec::new();
    let changes = modify_content(b"hello world   \x0C  \n\n \x0B \n", &options, &mut output);
    assert_eq!(output, b"hello world\n\n\n");
    assert_eq!(
        changes,
        vec![
            Change::new(1, ChangeType::RemovedNonstandardWhitespace(0x0C)),
            Change::new(1, ChangeType::RemovedTrailingWhitespace),
            Change::new(3, ChangeType::RemovedNonstandardWhitespace(0x0B)),
            Change::new(3, ChangeType::RemovedTrailingWhitespace),
        ]
    );
}

#[test]
fn test_modify_content_remove_trailing_whitespace_and_normalize_non_standard_whitespace_2() {
    let options: Options = Options::new()
        .remove_trailing_whitespace()
        .normalize_non_standard_whitespace(NonStandardWhitespaceReplacementMode::ReplaceWithSpace);
    let mut output = Vec::new();
    let changes = modify_content(b"hello world   \x0C  \n\n \x0B \n", &options, &mut output);
    assert_eq!(output, b"hello world\n\n\n");
    assert_eq!(
        changes,
        vec![
            Change::new(1, ChangeType::ReplacedNonstandardWhitespaceBySpace(0x0C)),
            Change::new(1, ChangeType::RemovedTrailingWhitespace),
            Change::new(3, ChangeType::ReplacedNonstandardWhitespaceBySpace(0x0B)),
            Change::new(3, ChangeType::RemovedTrailingWhitespace),
        ]
    );
}

#[test]
fn test_modify_content_remove_trailing_whitespace_and_modify_content_remove_trailing_empty_lines() {
    let options: Options = Options::new()
        .remove_trailing_whitespace()
        .remove_trailing_empty_lines();
    let mut output = Vec::new();
    let changes = modify_content(b"hello world   \n\n   \n", &options, &mut output);
    assert_eq!(output, b"hello world\n");
    assert_eq!(
        changes,
        vec![
            Change::new(1, ChangeType::RemovedTrailingWhitespace),
            Change::new(3, ChangeType::RemovedTrailingWhitespace),
            Change::new(2, ChangeType::RemovedEmptyLines),
        ]
    );
}

#[test]
fn test_modify_content_normalize_empty_files_empty() {
    let options: Options = Options::new().normalize_empty_files(TrivialFileReplacementMode::Empty);
    let mut output = Vec::new();
    let changes = modify_content(b"", &options, &mut output);
    assert_eq!(output, b"");
    assert_eq!(changes, vec![]);
}

#[test]
fn test_modify_content_normalize_empty_files_ignore() {
    let options: Options = Options::new().normalize_empty_files(TrivialFileReplacementMode::Ignore);
    let mut output = Vec::new();
    let changes = modify_content(b"", &options, &mut output);
    assert_eq!(output, b"");
    assert_eq!(changes, vec![]);
}

#[test]
fn test_modify_content_normalize_empty_files_one_line() {
    let options: Options =
        Options::new().normalize_empty_files(TrivialFileReplacementMode::OneLine);
    let mut output = Vec::new();
    let changes = modify_content(b"", &options, &mut output);
    assert_eq!(output, b"\n");
    assert_eq!(
        changes,
        vec![Change::new(1, ChangeType::ReplacedEmptyFileWithOneLine)]
    );
}

#[test]
fn test_modify_content_normalize_whitespace_only_files_empty() {
    let options: Options =
        Options::new().normalize_whitespace_only_files(TrivialFileReplacementMode::Empty);
    let mut output = Vec::new();
    let changes = modify_content(b"\n\t \x0B \x0C \n  ", &options, &mut output);
    assert_eq!(output, b"");
    assert_eq!(
        changes,
        vec![Change::new(
            1,
            ChangeType::ReplacedWhiteSpaceOnlyFileWithEmptyFile
        )]
    );
}

#[test]
fn test_modify_content_normalize_whitespace_only_files_ignore() {
    let options: Options =
        Options::new().normalize_whitespace_only_files(TrivialFileReplacementMode::Ignore);
    let mut output = Vec::new();
    let changes = modify_content(b"\n\t \x0B \x0C \n  ", &options, &mut output);
    assert_eq!(output, b"\n\t \x0B \x0C \n  ");
    assert_eq!(changes, vec![]);
}

#[test]
fn test_modify_content_normalize_whitespace_only_files_one_line() {
    let options: Options =
        Options::new().normalize_whitespace_only_files(TrivialFileReplacementMode::OneLine);
    let mut output = Vec::new();
    let changes = modify_content(b"\n\t \x0B \x0C \n  ", &options, &mut output);
    assert_eq!(output, b"\n");
    assert_eq!(
        changes,
        vec![Change::new(
            1,
            ChangeType::ReplacedWhiteSpaceOnlyFileWithOneLine
        )]
    );
}

#[test]
fn test_modify_content_normalize_whitespace_only_files_one_line_2() {
    let options: Options =
        Options::new().normalize_whitespace_only_files(TrivialFileReplacementMode::OneLine);
    let mut output = Vec::new();
    let changes = modify_content(b"\n", &options, &mut output);
    assert_eq!(output, b"\n");
    assert_eq!(changes, vec![]);
}

#[test]
fn test_modify_content_normalize_whitespace_only_files_one_line_3() {
    let options: Options = Options::new()
        .normalize_whitespace_only_files(TrivialFileReplacementMode::OneLine)
        .new_line_marker(OutputNewLineMarkerMode::Linux);
    let mut output = Vec::new();
    let changes = modify_content(b"\r\n", &options, &mut output);
    assert_eq!(output, b"\n");
    assert_eq!(
        changes,
        vec![Change::new(
            1,
            ChangeType::ReplacedWhiteSpaceOnlyFileWithOneLine
        )]
    );
}

#[test]
fn test_modify_content_normalize_whitespace_only_files_one_line_4() {
    let options: Options =
        Options::new().normalize_whitespace_only_files(TrivialFileReplacementMode::OneLine);
    let mut output = Vec::new();
    let changes = modify_content(b"\r\n", &options, &mut output);
    assert_eq!(output, b"\r\n");
    assert_eq!(changes, vec![]);
}

#[test]
fn test_modify_content_replace_tabs_with_spaces_ignore() {
    let options: Options = Options::new().replace_tabs_with_spaces(-47);
    let mut output = Vec::new();
    let changes = modify_content(b"\t", &options, &mut output);
    assert_eq!(output, b"\t");
    assert_eq!(changes, vec![]);
}

#[test]
fn test_modify_content_replace_tabs_with_spaces_0() {
    let options: Options = Options::new().replace_tabs_with_spaces(0);
    let mut output = Vec::new();
    let changes = modify_content(b"\thello", &options, &mut output);
    assert_eq!(output, b"hello");
    assert_eq!(changes, vec![Change::new(1, ChangeType::RemovedTab)]);
}

#[test]
fn test_modify_content_replace_tabs_with_spaces_3() {
    let options: Options = Options::new().replace_tabs_with_spaces(3);
    let mut output = Vec::new();
    let changes = modify_content(b"\thello", &options, &mut output);
    assert_eq!(output, b"   hello");
    assert_eq!(
        changes,
        vec![Change::new(1, ChangeType::ReplacedTabWithSpaces(3))]
    );
}

#[test]
fn test_modify_content_normalize_non_standard_whitespace_ignore() {
    let options: Options =
        Options::new().normalize_non_standard_whitespace(NonStandardWhitespaceReplacementMode::Ignore);
    let mut output = Vec::new();
    let changes = modify_content(b"\x0B\x0Chello\t ", &options, &mut output);
    assert_eq!(output, b"\x0B\x0Chello\t ");
    assert_eq!(changes, vec![]);
}

#[test]
fn test_modify_content_normalize_non_standard_whitespace_replace_with_space() {
    let options: Options = Options::new()
        .normalize_non_standard_whitespace(NonStandardWhitespaceReplacementMode::ReplaceWithSpace);
    let mut output = Vec::new();
    let changes = modify_content(b"\x0B\x0Chello\t ", &options, &mut output);
    assert_eq!(output, b"  hello\t ");
    assert_eq!(
        changes,
        vec![
            Change::new(1, ChangeType::ReplacedNonstandardWhitespaceBySpace(0x0B)),
            Change::new(1, ChangeType::ReplacedNonstandardWhitespaceBySpace(0x0C)),
        ]
    );
}

#[test]
fn test_modify_content_normalize_non_standard_whitespace_remove() {
    let options: Options =
        Options::new().normalize_non_standard_whitespace(NonStandardWhitespaceReplacementMode::Remove);
    let mut output = Vec::new();
    let changes = modify_content(b"\x0B\x0Chello\t ", &options, &mut output);
    assert_eq!(output, b"hello\t ");
    assert_eq!(
        changes,
        vec![
            Change::new(1, ChangeType::RemovedNonstandardWhitespace(0x0B)),
            Change::new(1, ChangeType::RemovedNonstandardWhitespace(0x0C)),
        ]
    );
}
