use whitespace_format::change::Change;
use whitespace_format::change::ChangeType;
use whitespace_format::engine::NewLineMarker;

#[test]
fn test_change_to_string() {
    assert_eq!(
        Change::new(1, ChangeType::NewLineMarkerAddedToEndOfFile).to_string(false),
        "line 1: New line marker was added at the end of the file."
    );
    assert_eq!(
        Change::new(1, ChangeType::NewLineMarkerAddedToEndOfFile).to_string(true),
        "line 1: New line marker needs to be added at the end of the file."
    );

    assert_eq!(
        Change::new(
            2,
            ChangeType::ReplacedNewLineMarker(NewLineMarker::Windows, NewLineMarker::Linux)
        )
        .to_string(false),
        "line 2: New line marker '\\r\\n' was replaced by '\\n'."
    );
    assert_eq!(
        Change::new(
            2,
            ChangeType::ReplacedNewLineMarker(NewLineMarker::Windows, NewLineMarker::Linux)
        )
        .to_string(true),
        "line 2: New line marker '\\r\\n' needs to be replaced by '\\n'."
    );

    assert_eq!(
        Change::new(3, ChangeType::ReplacedTabWithSpaces(4)).to_string(false),
        "line 3: Tab character was replaced with 4 spaces."
    );
    assert_eq!(
        Change::new(3, ChangeType::ReplacedTabWithSpaces(4)).to_string(true),
        "line 3: Tab character needs to be replaced by spaces or removed."
    );

    assert_eq!(
        Change::new(4, ChangeType::ReplacedNonstandardWhitespaceBySpace(0x0B)).to_string(false),
        "line 4: Non-standard whitespace character '\\v' was replaced by a space."
    );
    assert_eq!(
        Change::new(4, ChangeType::ReplacedNonstandardWhitespaceBySpace(0x0B)).to_string(true),
        "line 4: Non-standard whitespace character '\\v' needs to be replaced by a space."
    );

    assert_eq!(
        Change::new(5, ChangeType::RemovedNonstandardWhitespace(0x0C)).to_string(false),
        "line 5: Non-standard whitespace character '\\f' was removed."
    );
    assert_eq!(
        Change::new(5, ChangeType::RemovedNonstandardWhitespace(0x0C)).to_string(true),
        "line 5: Non-standard whitespace character '\\f' needs to be removed."
    );
}

#[test]
fn test_change_to_string_large_line_number() {
    assert_eq!(
        Change::new(1048576, ChangeType::RemovedTab).to_string(false),
        "line 1048576: Tab character was removed."
    );
}

#[test]
fn test_change_to_string_negative_tab_count() {
    assert_eq!(
        Change::new(7, ChangeType::ReplacedTabWithSpaces(-12)).to_string(false),
        "line 7: Tab character was replaced with -12 spaces."
    );
}

#[test]
fn test_change_to_string_trailing_and_empty_lines() {
    assert_eq!(
        Change::new(1, ChangeType::RemovedTrailingWhitespace).to_string(false),
        "line 1: Trailing whitespace was removed."
    );
    assert_eq!(
        Change::new(1, ChangeType::RemovedTrailingWhitespace).to_string(true),
        "line 1: Trailing whitespace needs to be removed."
    );
    assert_eq!(
        Change::new(2, ChangeType::RemovedEmptyLines).to_string(false),
        "line 2: Empty lines at the end of the file were removed."
    );
    assert_eq!(
        Change::new(2, ChangeType::RemovedLeadingEmptyLines).to_string(true),
        "line 2: Empty lines at the beginning of the file need to be removed."
    );
    assert_eq!(
        Change::new(1, ChangeType::ReplacedEmptyFileWithOneLine).to_string(false),
        "line 1: Empty file was replaced by a single empty line."
    );
    assert_eq!(
        Change::new(1, ChangeType::ReplacedWhiteSpaceOnlyFileWithEmptyFile).to_string(true),
        "line 1: File consisting of only whitespace needs to be replaced by an empty file."
    );
    assert_eq!(
        Change::new(1, ChangeType::ReplacedWhiteSpaceOnlyFileWithOneLine).to_string(false),
        "line 1: File consisting of only whitespace was replaced by a single empty line."
    );
    assert_eq!(
        Change::new(9, ChangeType::NewLineMarkerRemovedFromEndOfFile).to_string(true),
        "line 9: New line marker needs to be removed from the end of the file."
    );
}
