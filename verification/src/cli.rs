use vstd::prelude::*;

verus! {

/// Color mode.
#[derive(Clone, Copy, PartialEq, Eq, Structural, Debug)]
pub enum ColoredOutputMode {
    /// Detect coloring capabilities automatically.
    Auto,
    /// Turn off colored output.
    Off,
    /// Turn on colored output.
    On,
}

/// New line marker that should be used in the output files.
#[derive(Clone, Copy, PartialEq, Eq, Structural, Debug)]
pub enum OutputNewLineMarkerMode {
    /// Use the new line marker that is the most common in each individual
    /// file. If no new line marker is present in the file, Linux `\n` is
    /// used.
    Auto,
    /// Linux new line marker `\n`.
    Linux,
    /// MacOS new line marker `\r`.
    MacOs,
    /// Windows/DOS new line marker `\r\n`.
    Windows,
}

/// Mode for dealing with `\v` and `\f` characters.
#[derive(Clone, Copy, PartialEq, Eq, Structural, Debug)]
pub enum NonStandardWhitespaceReplacementMode {
    /// Leave `\v` and `\f` as is.
    Ignore,
    /// Replace any occurrence of `\v` or `\f` with a single space.
    ReplaceWithSpace,
    /// Remove all occurrences of `\v` and `\f`.
    Remove,
}

/// Mode for dealing with trivial files.
/// Trivial files are either empty files, or files consisting of only whitespace.
#[derive(Clone, Copy, PartialEq, Eq, Structural, Debug)]
pub enum TrivialFileReplacementMode {
    /// Leave the file as is.
    Ignore,
    /// Replace the file with an empty file.
    Empty,
    /// Replace the file with a file consisting of a single new line marker.
    OneLine,
}

/// Command line arguments of the program, after parsing and validation.
/// Argument parsing itself lives outside this crate; this is the plain
/// record of what was requested.
pub struct CommandLineArguments {
    /// Do not format files; only report which files need to be formatted.
    pub check_only: bool,
    /// Follow symbolic links when searching for files.
    pub follow_symlinks: bool,
    /// Regular expression that specifies which files to exclude.
    pub exclude: String,
    /// Enables or disables colored output.
    pub color: ColoredOutputMode,
    /// What new line marker to use in the formatted output file.
    pub new_line_marker: OutputNewLineMarkerMode,
    /// Add a new line marker at the end of the file if it is missing.
    pub add_new_line_marker_at_end_of_file: bool,
    /// Remove all new line markers from the end of each file.
    pub remove_new_line_marker_from_end_of_file: bool,
    /// Make new line markers consistent in each file.
    pub normalize_new_line_markers: bool,
    /// Remove whitespace at the end of each line.
    pub remove_trailing_whitespace: bool,
    /// Remove empty lines at the beginning of each file.
    pub remove_leading_empty_lines: bool,
    /// Remove empty lines at the end of each file.
    pub remove_trailing_empty_lines: bool,
    /// Replace files of zero length.
    pub normalize_empty_files: TrivialFileReplacementMode,
    /// Replace files consisting of whitespace only.
    pub normalize_whitespace_only_files: TrivialFileReplacementMode,
    /// Replace or remove the non-standard whitespace characters `\v` and
    /// `\f` in each file.
    pub normalize_non_standard_whitespace: NonStandardWhitespaceReplacementMode,
    /// Remove tabs or replace them with spaces: negative leaves tabs
    /// unchanged, zero removes them, a positive count replaces each tab
    /// with that many spaces.
    pub replace_tabs_with_spaces: isize,
    /// List of input files or directories.
    pub paths: Vec<String>,
}

} // verus!
