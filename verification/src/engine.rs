use vstd::prelude::*;

use crate::change::Change;
use crate::change::ChangeType;
use crate::cli::CommandLineArguments;
use crate::cli::NonStandardWhitespaceReplacementMode;
use crate::cli::OutputNewLineMarkerMode;
use crate::cli::TrivialFileReplacementMode;
use crate::writer::CountingWriter;
use crate::writer::Writer;

verus! {

// ASCII codes of characters that we care about.
// For efficiency, we encode the characters as unsigned bytes.
// This way we avoid Unicode character decoding and encoding.
pub const CARRIAGE_RETURN: u8 = 0x0D;

pub const LINE_FEED: u8 = 0x0A;

pub const SPACE: u8 = 0x20;

pub const TAB: u8 = 0x09;

/// The same as `\v` in C, C++, Java and Python.
pub const VERTICAL_TAB: u8 = 0x0B;

/// The same as `\f` in C, C++, Java and Python.
pub const FORM_FEED: u8 = 0x0C;

/// The string that [`char_to_str`] returns for each byte.
pub open spec fn char_to_str_spec(c: u8) -> Seq<char> {
    if c == CARRIAGE_RETURN {
        seq!['\\', 'r']
    } else if c == LINE_FEED {
        seq!['\\', 'n']
    } else if c == SPACE {
        seq![' ']
    } else if c == TAB {
        seq!['\\', 't']
    } else if c == VERTICAL_TAB {
        seq!['\\', 'v']
    } else if c == FORM_FEED {
        seq!['\\', 'f']
    } else {
        seq!['?']
    }
}

/// Converts an ASCII code to a human-readable string.
pub fn char_to_str(c: u8) -> (r: &'static str)
    ensures
        r@ == char_to_str_spec(c),
{
    proof {
        reveal_strlit("\\n");
        reveal_strlit("\\r");
        reveal_strlit(" ");
        reveal_strlit("\\t");
        reveal_strlit("\\v");
        reveal_strlit("\\f");
        reveal_strlit("?");
    }
    let r: &'static str = if c == CARRIAGE_RETURN {
        "\\r"
    } else if c == LINE_FEED {
        "\\n"
    } else if c == SPACE {
        " "
    } else if c == TAB {
        "\\t"
    } else if c == VERTICAL_TAB {
        "\\v"
    } else if c == FORM_FEED {
        "\\f"
    } else {
        "?"
    };
    proof {
        assert(r@ =~= char_to_str_spec(c));
    }
    r
}

/// Type of new line marker. There are three types of new line markers:
/// 1) Linux (`\n`)
/// 2) MacOS (`\r`)
/// 3) Windows/DOS (`\r\n`)
#[derive(Clone, Copy, PartialEq, Eq, Structural, Debug)]
pub enum NewLineMarker {
    /// Linux line ending is a single line feed character `\n`.
    Linux,
    /// MacOS line ending is a single carriage return character `\r`.
    MacOs,
    /// Windows/DOS line ending is a sequence of two characters:
    /// carriage return character followed by line feed character.
    Windows,
}

/// Byte representation of a new line marker.
pub open spec fn marker_bytes(m: NewLineMarker) -> Seq<u8> {
    match m {
        NewLineMarker::Linux => seq![LINE_FEED],
        NewLineMarker::MacOs => seq![CARRIAGE_RETURN],
        NewLineMarker::Windows => seq![CARRIAGE_RETURN, LINE_FEED],
    }
}

impl NewLineMarker {
    /// Byte representation of a new line marker.
    pub fn to_bytes(&self) -> (r: Vec<u8>)
        ensures
            r@ == marker_bytes(*self),
    {
        let mut r: Vec<u8> = Vec::new();
        match self {
            NewLineMarker::Linux => {
                r.push(LINE_FEED);
            },
            NewLineMarker::MacOs => {
                r.push(CARRIAGE_RETURN);
            },
            NewLineMarker::Windows => {
                r.push(CARRIAGE_RETURN);
                r.push(LINE_FEED);
            },
        }
        proof {
            assert(r@ =~= marker_bytes(*self));
        }
        r
    }
}

/// Options for formatting a single file.
#[derive(Clone, Copy, Debug)]
pub struct Options {
    pub add_new_line_marker_at_end_of_file: bool,
    pub remove_new_line_marker_from_end_of_file: bool,
    pub normalize_new_line_markers: bool,
    pub remove_trailing_whitespace: bool,
    pub remove_trailing_empty_lines: bool,
    pub new_line_marker: OutputNewLineMarkerMode,
    pub normalize_empty_files: TrivialFileReplacementMode,
    pub normalize_whitespace_only_files: TrivialFileReplacementMode,
    pub replace_tabs_with_spaces: isize,
    pub normalize_non_standard_whitespace: NonStandardWhitespaceReplacementMode,
}

impl Options {
    /// Options under which every rule is switched off: the engine copies
    /// its input unchanged.
    pub fn new() -> (r: Options)
        ensures
            r == (Options {
                add_new_line_marker_at_end_of_file: false,
                remove_new_line_marker_from_end_of_file: false,
                normalize_new_line_markers: false,
                remove_trailing_whitespace: false,
                remove_trailing_empty_lines: false,
                new_line_marker: OutputNewLineMarkerMode::Auto,
                normalize_empty_files: TrivialFileReplacementMode::Ignore,
                normalize_whitespace_only_files: TrivialFileReplacementMode::Ignore,
                replace_tabs_with_spaces: -1isize,
                normalize_non_standard_whitespace: NonStandardWhitespaceReplacementMode::Ignore,
            }),
    {
        Options {
            add_new_line_marker_at_end_of_file: false,
            remove_new_line_marker_from_end_of_file: false,
            normalize_new_line_markers: false,
            remove_trailing_whitespace: false,
            remove_trailing_empty_lines: false,
            new_line_marker: OutputNewLineMarkerMode::Auto,
            normalize_empty_files: TrivialFileReplacementMode::Ignore,
            normalize_whitespace_only_files: TrivialFileReplacementMode::Ignore,
            replace_tabs_with_spaces: -1,
            normalize_non_standard_whitespace: NonStandardWhitespaceReplacementMode::Ignore,
        }
    }

    /// The mutual exclusions that the configuration loader guarantees:
    /// replacing empty files by one line must not be combined with
    /// replacing whitespace-only files by empty files, and the two
    /// end-of-file marker rules must not both be requested. Either
    /// combination would not be idempotent.
    pub open spec fn valid(self) -> bool {
        &&& !(self.normalize_empty_files == TrivialFileReplacementMode::OneLine
            && self.normalize_whitespace_only_files == TrivialFileReplacementMode::Empty)
        &&& !(self.add_new_line_marker_at_end_of_file
            && self.remove_new_line_marker_from_end_of_file)
    }

    pub fn add_new_line_marker_at_end_of_file(self) -> (r: Options)
        ensures
            r == (Options {
                add_new_line_marker_at_end_of_file: true,
                remove_new_line_marker_from_end_of_file: false,
                ..self
            }),
    {
        Options {
            add_new_line_marker_at_end_of_file: true,
            remove_new_line_marker_from_end_of_file: false,
            ..self
        }
    }

    pub fn remove_new_line_marker_from_end_of_file(self) -> (r: Options)
        ensures
            r == (Options {
                add_new_line_marker_at_end_of_file: false,
                remove_new_line_marker_from_end_of_file: true,
                ..self
            }),
    {
        Options {
            add_new_line_marker_at_end_of_file: false,
            remove_new_line_marker_from_end_of_file: true,
            ..self
        }
    }

    pub fn normalize_new_line_markers(self) -> (r: Options)
        ensures
            r == (Options { normalize_new_line_markers: true, ..self }),
    {
        Options { normalize_new_line_markers: true, ..self }
    }

    pub fn remove_trailing_whitespace(self) -> (r: Options)
        ensures
            r == (Options { remove_trailing_whitespace: true, ..self }),
    {
        Options { remove_trailing_whitespace: true, ..self }
    }

    pub fn remove_trailing_empty_lines(self) -> (r: Options)
        ensures
            r == (Options { remove_trailing_empty_lines: true, ..self }),
    {
        Options { remove_trailing_empty_lines: true, ..self }
    }

    pub fn new_line_marker(self, mode: OutputNewLineMarkerMode) -> (r: Options)
        ensures
            r == (Options { new_line_marker: mode, ..self }),
    {
        Options { new_line_marker: mode, ..self }
    }

    pub fn normalize_empty_files(self, mode: TrivialFileReplacementMode) -> (r: Options)
        ensures
            r == (Options { normalize_empty_files: mode, ..self }),
    {
        Options { normalize_empty_files: mode, ..self }
    }

    pub fn normalize_whitespace_only_files(self, mode: TrivialFileReplacementMode) -> (r: Options)
        ensures
            r == (Options { normalize_whitespace_only_files: mode, ..self }),
    {
        Options { normalize_whitespace_only_files: mode, ..self }
    }

    pub fn replace_tabs_with_spaces(self, num_spaces: isize) -> (r: Options)
        ensures
            r == (Options { replace_tabs_with_spaces: num_spaces, ..self }),
    {
        Options { replace_tabs_with_spaces: num_spaces, ..self }
    }

    pub fn normalize_non_standard_whitespace(
        self,
        mode: NonStandardWhitespaceReplacementMode,
    ) -> (r: Options)
        ensures
            r == (Options { normalize_non_standard_whitespace: mode, ..self }),
    {
        Options { normalize_non_standard_whitespace: mode, ..self }
    }
}

impl CommandLineArguments {
    /// Extracts formatting options from command line arguments.
    pub fn get_options(&self) -> (r: Options)
        ensures
            r == (Options {
                add_new_line_marker_at_end_of_file: self.add_new_line_marker_at_end_of_file,
                remove_new_line_marker_from_end_of_file:
                    self.remove_new_line_marker_from_end_of_file,
                normalize_new_line_markers: self.normalize_new_line_markers,
                remove_trailing_whitespace: self.remove_trailing_whitespace,
                remove_trailing_empty_lines: self.remove_trailing_empty_lines,
                new_line_marker: self.new_line_marker,
                normalize_empty_files: self.normalize_empty_files,
                normalize_whitespace_only_files: self.normalize_whitespace_only_files,
                replace_tabs_with_spaces: self.replace_tabs_with_spaces,
                normalize_non_standard_whitespace: self.normalize_non_standard_whitespace,
            }),
    {
        Options {
            add_new_line_marker_at_end_of_file: self.add_new_line_marker_at_end_of_file,
            remove_new_line_marker_from_end_of_file: self.remove_new_line_marker_from_end_of_file,
            normalize_new_line_markers: self.normalize_new_line_markers,
            remove_trailing_whitespace: self.remove_trailing_whitespace,
            remove_trailing_empty_lines: self.remove_trailing_empty_lines,
            new_line_marker: self.new_line_marker,
            normalize_empty_files: self.normalize_empty_files,
            normalize_whitespace_only_files: self.normalize_whitespace_only_files,
            replace_tabs_with_spaces: self.replace_tabs_with_spaces,
            normalize_non_standard_whitespace: self.normalize_non_standard_whitespace,
        }
    }
}

/// The six byte values the formatter treats as whitespace.
pub open spec fn is_whitespace_byte(b: u8) -> bool {
    b == CARRIAGE_RETURN || b == LINE_FEED || b == SPACE || b == TAB || b == VERTICAL_TAB
        || b == FORM_FEED
}

/// Every byte of the sequence is whitespace.
pub open spec fn is_all_whitespace(s: Seq<u8>) -> bool {
    forall|k: int| 0 <= k < s.len() ==> is_whitespace_byte(#[trigger] s[k])
}

/// Determines if a file consists of only whitespace.
pub fn is_file_whitespace(input_data: &[u8]) -> (r: bool)
    ensures
        r == is_all_whitespace(input_data@),
{
    let mut i: usize = 0;
    while i < input_data.len()
        invariant
            i <= input_data@.len(),
            forall|k: int| 0 <= k < i ==> is_whitespace_byte(#[trigger] input_data@[k]),
        decreases input_data@.len() - i,
    {
        let b = input_data[i];
        if !(b == CARRIAGE_RETURN || b == LINE_FEED || b == SPACE || b == TAB || b == VERTICAL_TAB
            || b == FORM_FEED) {
            return false;
        }
        i += 1;
    }
    true
}

/// How often each kind of new line marker occurs in a byte sequence.
pub struct NewLineMarkerCounts {
    pub linux: int,
    pub macos: int,
    pub windows: int,
}

/// Counts the new line markers in `s[i..]`. A carriage return immediately
/// followed by a line feed counts as a single Windows marker, consuming
/// both bytes.
pub open spec fn new_line_marker_counts_from(s: Seq<u8>, i: int) -> NewLineMarkerCounts
    decreases s.len() - i,
{
    if i < 0 || i >= s.len() {
        NewLineMarkerCounts { linux: 0, macos: 0, windows: 0 }
    } else if s[i] == CARRIAGE_RETURN {
        if i + 1 < s.len() && s[i + 1] == LINE_FEED {
            let c = new_line_marker_counts_from(s, i + 2);
            NewLineMarkerCounts { linux: c.linux, macos: c.macos, windows: c.windows + 1 }
        } else {
            let c = new_line_marker_counts_from(s, i + 1);
            NewLineMarkerCounts { linux: c.linux, macos: c.macos + 1, windows: c.windows }
        }
    } else if s[i] == LINE_FEED {
        let c = new_line_marker_counts_from(s, i + 1);
        NewLineMarkerCounts { linux: c.linux + 1, macos: c.macos, windows: c.windows }
    } else {
        new_line_marker_counts_from(s, i + 1)
    }
}

/// Counts the new line markers in the whole sequence.
pub open spec fn new_line_marker_counts(s: Seq<u8>) -> NewLineMarkerCounts {
    new_line_marker_counts_from(s, 0)
}

/// The most common new line marker of a byte sequence. Ties are broken by
/// the fixed preference order Linux, then Windows, then MacOS; in
/// particular a sequence without any marker resolves to Linux.
pub open spec fn most_common_new_line_marker(s: Seq<u8>) -> NewLineMarker {
    let c = new_line_marker_counts(s);
    if c.macos > c.windows && c.macos > c.linux {
        NewLineMarker::MacOs
    } else if c.windows > c.linux {
        NewLineMarker::Windows
    } else {
        NewLineMarker::Linux
    }
}

/// Computes the most common new line marker based on content of the file.
/// If there are ties, prefer Linux to Windows to MacOS.
/// If there are no new line markers, return Linux.
pub fn find_most_common_new_line_marker(input: &[u8]) -> (r: NewLineMarker)
    ensures
        r == most_common_new_line_marker(input@),
{
    let mut linux_count: usize = 0;
    let mut macos_count: usize = 0;
    let mut windows_count: usize = 0;
    let mut i: usize = 0;

    while i < input.len()
        invariant
            i <= input@.len(),
            linux_count <= i,
            macos_count <= i,
            windows_count <= i,
            new_line_marker_counts(input@).linux == linux_count
                + new_line_marker_counts_from(input@, i as int).linux,
            new_line_marker_counts(input@).macos == macos_count
                + new_line_marker_counts_from(input@, i as int).macos,
            new_line_marker_counts(input@).windows == windows_count
                + new_line_marker_counts_from(input@, i as int).windows,
        decreases input@.len() - i,
    {
        if input[i] == CARRIAGE_RETURN {
            if i < input.len() - 1 && input[i + 1] == LINE_FEED {
                windows_count += 1;
                i += 1;
            } else {
                macos_count += 1;
            }
        } else if input[i] == LINE_FEED {
            linux_count += 1;
        }
        i += 1;
    }

    if macos_count > windows_count && macos_count > linux_count {
        return NewLineMarker::MacOs;
    } else if windows_count > linux_count {
        return NewLineMarker::Windows;
    }
    NewLineMarker::Linux
}

/// The new line marker the engine writes, resolved from the configured
/// mode: a fixed mode names its marker directly, and `Auto` uses the most
/// common marker of the input.
pub open spec fn resolve_new_line_marker(mode: OutputNewLineMarkerMode, input: Seq<u8>) -> NewLineMarker {
    match mode {
        OutputNewLineMarkerMode::Auto => most_common_new_line_marker(input),
        OutputNewLineMarkerMode::Linux => NewLineMarker::Linux,
        OutputNewLineMarkerMode::MacOs => NewLineMarker::MacOs,
        OutputNewLineMarkerMode::Windows => NewLineMarker::Windows,
    }
}

/// The state of the per-byte scan: the output written so far, the changes
/// recorded so far, and the checkpoints the scanner may later rewind to.
/// All positions are indices into the output, not the input.
#[verifier::ext_equal]
pub struct ScanState {
    /// The output bytes written so far.
    pub out: Seq<u8>,
    /// The changes recorded so far, in order.
    pub changes: Seq<Change>,
    /// Current line number; incremented each time an end-of-line marker is
    /// written.
    pub line_number: int,
    /// Position one byte past the end of the last line in the output,
    /// including its end-of-line marker.
    pub last_end_of_line_including_eol_marker: int,
    /// Position one byte past the last non-whitespace byte in the output.
    pub last_non_whitespace: int,
    /// Position one byte past the end of the last non-empty line in the
    /// output, excluding its end-of-line marker.
    pub last_end_of_non_empty_line_excluding_eol_marker: int,
    /// Position one byte past the end of the last non-empty line in the
    /// output, including its end-of-line marker.
    pub last_end_of_non_empty_line_including_eol_marker: int,
    /// Line number of the last non-empty line.
    pub last_non_empty_line_number: int,
}

/// The scan state before any input byte has been consumed.
pub open spec fn initial_scan_state() -> ScanState {
    ScanState {
        out: Seq::empty(),
        changes: Seq::empty(),
        line_number: 1,
        last_end_of_line_including_eol_marker: 0,
        last_non_whitespace: 0,
        last_end_of_non_empty_line_excluding_eol_marker: 0,
        last_end_of_non_empty_line_including_eol_marker: 0,
        last_non_empty_line_number: 0,
    }
}

/// The end-of-line marker that starts at position `i` of the input, given
/// that `input[i]` is a carriage return or a line feed: a carriage return
/// immediately followed by a line feed forms a Windows marker.
pub open spec fn marker_at(input: Seq<u8>, i: int) -> NewLineMarker {
    if input[i] == LINE_FEED {
        NewLineMarker::Linux
    } else if i + 1 < input.len() && input[i + 1] == LINE_FEED {
        NewLineMarker::Windows
    } else {
        NewLineMarker::MacOs
    }
}

/// How many input bytes the marker at position `i` occupies.
pub open spec fn marker_width(input: Seq<u8>, i: int) -> int {
    if marker_at(input, i) == NewLineMarker::Windows {
        2
    } else {
        1
    }
}

/// The scanner's action on an end-of-line marker: remove trailing
/// whitespace of the line just ending, write the marker (normalized to
/// `target` when requested), refresh the non-empty-line checkpoints, and
/// advance the line number.
pub open spec fn scan_end_of_line(
    opts: Options,
    target: NewLineMarker,
    marker: NewLineMarker,
    st: ScanState,
) -> ScanState {
    let rewind_to = vstd::math::max(
        st.last_non_whitespace,
        st.last_end_of_line_including_eol_marker,
    );
    let st1 = if opts.remove_trailing_whitespace && rewind_to < st.out.len() {
        ScanState {
            out: st.out.take(rewind_to),
            changes: st.changes.push(
                Change {
                    line_number: st.line_number as usize,
                    change_type: ChangeType::RemovedTrailingWhitespace,
                },
            ),
            ..st
        }
    } else {
        st
    };
    let is_empty_line = st1.last_end_of_line_including_eol_marker == st1.out.len();
    let last_end_of_line_excluding_eol_marker = st1.out.len() as int;
    let st2 = if opts.normalize_new_line_markers && target != marker {
        ScanState {
            out: st1.out + marker_bytes(target),
            changes: st1.changes.push(
                Change {
                    line_number: st1.line_number as usize,
                    change_type: ChangeType::ReplacedNewLineMarker(marker, target),
                },
            ),
            ..st1
        }
    } else {
        ScanState { out: st1.out + marker_bytes(marker), ..st1 }
    };
    let st3 = ScanState { last_end_of_line_including_eol_marker: st2.out.len() as int, ..st2 };
    let st4 = if !is_empty_line {
        ScanState {
            last_end_of_non_empty_line_excluding_eol_marker: last_end_of_line_excluding_eol_marker,
            last_end_of_non_empty_line_including_eol_marker:
                st3.last_end_of_line_including_eol_marker,
            last_non_empty_line_number: st3.line_number,
            ..st3
        }
    } else {
        st3
    };
    ScanState { line_number: st4.line_number + 1, ..st4 }
}

/// The scanner's action on a space: copy it verbatim.
pub open spec fn scan_space(st: ScanState) -> ScanState {
    ScanState { out: st.out.push(SPACE), ..st }
}

/// The scanner's action on a tab: copy it when the policy is negative,
/// replace it by that many spaces when positive, and drop it when zero.
pub open spec fn scan_tab(opts: Options, st: ScanState) -> ScanState {
    if opts.replace_tabs_with_spaces < 0 {
        ScanState { out: st.out.push(TAB), ..st }
    } else if opts.replace_tabs_with_spaces > 0 {
        ScanState {
            out: st.out + Seq::new(opts.replace_tabs_with_spaces as nat, |j: int| SPACE),
            changes: st.changes.push(
                Change {
                    line_number: st.line_number as usize,
                    change_type: ChangeType::ReplacedTabWithSpaces(opts.replace_tabs_with_spaces),
                },
            ),
            ..st
        }
    } else {
        ScanState {
            changes: st.changes.push(
                Change { line_number: st.line_number as usize, change_type: ChangeType::RemovedTab },
            ),
            ..st
        }
    }
}

/// The scanner's action on a vertical tab or form feed, per policy: copy,
/// replace with one space, or drop.
pub open spec fn scan_non_standard_whitespace(opts: Options, b: u8, st: ScanState) -> ScanState {
    match opts.normalize_non_standard_whitespace {
        NonStandardWhitespaceReplacementMode::Ignore => ScanState { out: st.out.push(b), ..st },
        NonStandardWhitespaceReplacementMode::ReplaceWithSpace => ScanState {
            out: st.out.push(SPACE),
            changes: st.changes.push(
                Change {
                    line_number: st.line_number as usize,
                    change_type: ChangeType::ReplacedNonstandardWhitespaceBySpace(b),
                },
            ),
            ..st
        },
        NonStandardWhitespaceReplacementMode::Remove => ScanState {
            changes: st.changes.push(
                Change {
                    line_number: st.line_number as usize,
                    change_type: ChangeType::RemovedNonstandardWhitespace(b),
                },
            ),
            ..st
        },
    }
}

/// The scanner's action on any other byte: copy it and remember that the
/// output now ends in non-whitespace.
pub open spec fn scan_other(b: u8, st: ScanState) -> ScanState {
    let out = st.out.push(b);
    ScanState { out, last_non_whitespace: out.len() as int, ..st }
}

/// The per-byte scan of the engine over `input[i..]`, starting from state
/// `st`: every byte is classified and acted on as the step functions above
/// describe.
pub open spec fn scan(
    input: Seq<u8>,
    opts: Options,
    target: NewLineMarker,
    i: int,
    st: ScanState,
) -> ScanState
    decreases input.len() - i,
{
    if i < 0 || i >= input.len() {
        st
    } else {
        let b = input[i];
        if b == CARRIAGE_RETURN || b == LINE_FEED {
            scan(
                input,
                opts,
                target,
                i + marker_width(input, i),
                scan_end_of_line(opts, target, marker_at(input, i), st),
            )
        } else if b == SPACE {
            scan(input, opts, target, i + 1, scan_space(st))
        } else if b == TAB {
            scan(input, opts, target, i + 1, scan_tab(opts, st))
        } else if b == VERTICAL_TAB || b == FORM_FEED {
            scan(input, opts, target, i + 1, scan_non_standard_whitespace(opts, b, st))
        } else {
            scan(input, opts, target, i + 1, scan_other(b, st))
        }
    }
}

/// First post-processing adjustment: remove trailing whitespace from the
/// final, unterminated line by rewinding to the last non-whitespace byte.
pub open spec fn finish_trailing_whitespace(opts: Options, st: ScanState) -> ScanState {
    if opts.remove_trailing_whitespace && st.last_end_of_line_including_eol_marker < st.out.len()
        && st.last_non_whitespace < st.out.len() {
        ScanState {
            out: st.out.take(st.last_non_whitespace),
            changes: st.changes.push(
                Change {
                    line_number: st.line_number as usize,
                    change_type: ChangeType::RemovedTrailingWhitespace,
                },
            ),
            ..st
        }
    } else {
        st
    }
}

/// Second post-processing adjustment: when the output ends with terminated
/// blank lines, rewind to the end of the last non-empty line; any number
/// of consecutive blank lines coalesces into one change record.
pub open spec fn finish_trailing_empty_lines(opts: Options, st: ScanState) -> ScanState {
    if opts.remove_trailing_empty_lines && st.last_end_of_line_including_eol_marker == st.out.len()
        && st.last_end_of_non_empty_line_including_eol_marker < st.out.len() {
        ScanState {
            out: st.out.take(st.last_end_of_non_empty_line_including_eol_marker),
            changes: st.changes.push(
                Change {
                    line_number: (st.last_non_empty_line_number + 1) as usize,
                    change_type: ChangeType::RemovedEmptyLines,
                },
            ),
            line_number: st.last_non_empty_line_number + 1,
            last_end_of_line_including_eol_marker:
                st.last_end_of_non_empty_line_including_eol_marker,
            ..st
        }
    } else {
        st
    }
}

/// Third post-processing adjustment: append the resolved marker when the
/// output does not end at a marker boundary. The boundary check compares
/// the end-of-line checkpoint with the output's length: the two differ
/// both when unterminated content follows the last marker and when the
/// trailing-whitespace rule has rewound past that marker.
pub open spec fn finish_add_end_of_file_marker(
    opts: Options,
    target: NewLineMarker,
    st: ScanState,
) -> ScanState {
    if opts.add_new_line_marker_at_end_of_file && st.last_end_of_line_including_eol_marker
        != st.out.len() {
        let out = st.out + marker_bytes(target);
        ScanState {
            out,
            changes: st.changes.push(
                Change {
                    line_number: st.line_number as usize,
                    change_type: ChangeType::NewLineMarkerAddedToEndOfFile,
                },
            ),
            line_number: st.line_number + 1,
            last_end_of_line_including_eol_marker: out.len() as int,
            ..st
        }
    } else {
        st
    }
}

/// Fourth post-processing adjustment: when the output ends at a marker
/// boundary and at least one line was produced, rewind past that marker to
/// the unterminated end of the last non-empty line.
pub open spec fn finish_remove_end_of_file_marker(opts: Options, st: ScanState) -> ScanState {
    if opts.remove_new_line_marker_from_end_of_file && st.last_end_of_line_including_eol_marker
        == st.out.len() && st.line_number >= 2 {
        ScanState {
            out: st.out.take(st.last_end_of_non_empty_line_excluding_eol_marker),
            changes: st.changes.push(
                Change {
                    line_number: st.last_non_empty_line_number as usize,
                    change_type: ChangeType::NewLineMarkerRemovedFromEndOfFile,
                },
            ),
            line_number: st.last_non_empty_line_number,
            ..st
        }
    } else {
        st
    }
}

/// The four post-processing adjustments that run, in this fixed order,
/// after the scan has consumed the whole input.
pub open spec fn finish(opts: Options, target: NewLineMarker, st: ScanState) -> ScanState {
    finish_remove_end_of_file_marker(
        opts,
        finish_add_end_of_file_marker(
            opts,
            target,
            finish_trailing_empty_lines(opts, finish_trailing_whitespace(opts, st)),
        ),
    )
}

/// What the engine produces for a given input and configuration: the
/// output bytes and the ordered change log. Empty and whitespace-only
/// inputs are handled by the trivial-file policies without a scan; every
/// other input goes through the per-byte scan and the post-processing
/// adjustments.
pub open spec fn engine(input: Seq<u8>, opts: Options) -> (Seq<u8>, Seq<Change>) {
    let target = resolve_new_line_marker(opts.new_line_marker, input);
    if input.len() == 0 {
        match opts.normalize_empty_files {
            TrivialFileReplacementMode::Ignore => (Seq::<u8>::empty(), Seq::<Change>::empty()),
            TrivialFileReplacementMode::Empty => (Seq::<u8>::empty(), Seq::<Change>::empty()),
            TrivialFileReplacementMode::OneLine => (
                marker_bytes(target),
                seq![
                    Change {
                        line_number: 1usize,
                        change_type: ChangeType::ReplacedEmptyFileWithOneLine,
                    },
                ],
            ),
        }
    } else if is_all_whitespace(input) {
        match opts.normalize_whitespace_only_files {
            TrivialFileReplacementMode::Ignore => (input, Seq::<Change>::empty()),
            TrivialFileReplacementMode::Empty => (
                Seq::<u8>::empty(),
                seq![
                    Change {
                        line_number: 1usize,
                        change_type: ChangeType::ReplacedWhiteSpaceOnlyFileWithEmptyFile,
                    },
                ],
            ),
            TrivialFileReplacementMode::OneLine => if input == marker_bytes(target) {
                (marker_bytes(target), Seq::<Change>::empty())
            } else {
                (
                    marker_bytes(target),
                    seq![
                        Change {
                            line_number: 1usize,
                            change_type: ChangeType::ReplacedWhiteSpaceOnlyFileWithOneLine,
                        },
                    ],
                )
            },
        }
    } else {
        let st = finish(opts, target, scan(input, opts, target, 0, initial_scan_state()));
        (st.out, st.changes)
    }
}

/// Output bytes of the engine.
pub open spec fn engine_output(input: Seq<u8>, opts: Options) -> Seq<u8> {
    engine(input, opts).0
}

/// Change log of the engine.
pub open spec fn engine_changes(input: Seq<u8>, opts: Options) -> Seq<Change> {
    engine(input, opts).1
}

/// Upper bound on the number of output bytes the engine writes for a
/// single input byte: a lone carriage return may become a two-byte Windows
/// marker, and a tab may become that many spaces.
pub open spec fn max_bytes_per_input_byte(opts: Options) -> int {
    if opts.replace_tabs_with_spaces > 2 {
        opts.replace_tabs_with_spaces as int
    } else {
        2
    }
}

/// The whole output, including a possibly appended end-of-file marker,
/// fits in a usize-addressed buffer. This is the machine limit under which
/// the engine runs; it holds comfortably for any real file.
pub open spec fn output_fits(input: Seq<u8>, opts: Options) -> bool {
    input.len() * max_bytes_per_input_byte(opts) + 2 <= usize::MAX
}

/// The scan state as assembled from the engine's run-time variables.
spec fn st_of(
    out: Seq<u8>,
    changes: Seq<Change>,
    line_number: usize,
    last_end_of_line_including_eol_marker: usize,
    last_non_whitespace: usize,
    last_end_of_non_empty_line_excluding_eol_marker: usize,
    last_end_of_non_empty_line_including_eol_marker: usize,
    last_non_empty_line_number: usize,
) -> ScanState {
    ScanState {
        out,
        changes,
        line_number: line_number as int,
        last_end_of_line_including_eol_marker: last_end_of_line_including_eol_marker as int,
        last_non_whitespace: last_non_whitespace as int,
        last_end_of_non_empty_line_excluding_eol_marker:
            last_end_of_non_empty_line_excluding_eol_marker as int,
        last_end_of_non_empty_line_including_eol_marker:
            last_end_of_non_empty_line_including_eol_marker as int,
        last_non_empty_line_number: last_non_empty_line_number as int,
    }
}

/// Room for one more step: a buffer within the running bound has space for
/// this iteration's writes and for a final end-of-file marker.
proof fn lemma_iteration_room(o: int, i: int, len: int, e: int)
    requires
        0 <= o <= i * e,
        0 <= i < len,
        2 <= e,
        len * e + 2 <= usize::MAX,
    ensures
        o + e + 2 <= usize::MAX,
{
    assert(o + e + 2 <= usize::MAX) by (nonlinear_arith)
        requires
            0 <= o <= i * e,
            0 <= i < len,
            2 <= e,
            len * e + 2 <= usize::MAX,
    ;
}

/// The running bound is preserved: consuming `k` more input bytes while
/// writing at most `e` more output bytes keeps the output under `(i+k)*e`.
proof fn lemma_iteration_growth(o2: int, o: int, i: int, k: int, e: int)
    requires
        o2 <= o + e,
        0 <= o <= i * e,
        0 <= i,
        1 <= k,
        2 <= e,
    ensures
        o2 <= (i + k) * e,
{
    assert(o2 <= (i + k) * e) by (nonlinear_arith)
        requires
            o2 <= o + e,
            0 <= o <= i * e,
            0 <= i,
            1 <= k,
            2 <= e,
    ;
}

/// Byte-for-byte equality of two slices.
fn slice_eq(a: &[u8], b: &[u8]) -> (r: bool)
    ensures
        r == (a@ == b@),
{
    if a.len() != b.len() {
        return false;
    }
    let mut i: usize = 0;
    while i < a.len()
        invariant
            a@.len() == b@.len(),
            i <= a@.len(),
            forall|k: int| 0 <= k < i ==> a@[k] == b@[k],
        decreases a@.len() - i,
    {
        if a[i] != b[i] {
            return false;
        }
        i += 1;
    }
    proof {
        assert(a@ =~= b@);
    }
    true
}

/// The core formatting algorithm for making changes in a file.
/// The output is written using a writer. A writer is an in-memory buffer
/// that supports writing bytes and rewinds. The rewinds are used when
/// deleting trailing whitespace.
///
/// The writer must start out empty, and ends up holding exactly the
/// engine's output; the returned list is exactly the engine's change log.
#[verifier::rlimit(100)]
pub fn modify_content<T: Writer>(input_data: &[u8], options: &Options, writer: &mut T) -> (changes:
    Vec<Change>)
    requires
        old(writer).bytes() == Seq::<u8>::empty(),
        output_fits(input_data@, *options),
    ensures
        final(writer).bytes() == engine_output(input_data@, *options),
        changes@ == engine_changes(input_data@, *options),
{
    // Figure out what new line marker to use when writing to the output buffer.
    let output_new_line_marker = match options.new_line_marker {
        OutputNewLineMarkerMode::Auto => find_most_common_new_line_marker(input_data),
        OutputNewLineMarkerMode::Linux => NewLineMarker::Linux,
        OutputNewLineMarkerMode::MacOs => NewLineMarker::MacOs,
        OutputNewLineMarkerMode::Windows => NewLineMarker::Windows,
    };
    let ghost target = resolve_new_line_marker(options.new_line_marker, input_data@);

    // Handle empty file.
    if input_data.len() == 0 {
        return match options.normalize_empty_files {
            TrivialFileReplacementMode::Empty | TrivialFileReplacementMode::Ignore => Vec::new(),
            TrivialFileReplacementMode::OneLine => {
                let marker = output_new_line_marker.to_bytes();
                writer.write_bytes(marker.as_slice());
                let mut changes: Vec<Change> = Vec::new();
                changes.push(Change::new(1, ChangeType::ReplacedEmptyFileWithOneLine));
                proof {
                    assert(changes@ =~= engine_changes(input_data@, *options));
                }
                changes
            },
        };
    }
    // Handle non-empty file consisting of whitespace only.
    if is_file_whitespace(input_data) {
        return match options.normalize_whitespace_only_files {
            TrivialFileReplacementMode::Empty => {
                let mut changes: Vec<Change> = Vec::new();
                changes.push(
                    Change::new(1, ChangeType::ReplacedWhiteSpaceOnlyFileWithEmptyFile),
                );
                proof {
                    assert(changes@ =~= engine_changes(input_data@, *options));
                }
                changes
            },
            TrivialFileReplacementMode::Ignore => {
                writer.write_bytes(input_data);
                Vec::new()
            },
            TrivialFileReplacementMode::OneLine => {
                let marker = output_new_line_marker.to_bytes();
                writer.write_bytes(marker.as_slice());
                if slice_eq(input_data, marker.as_slice()) {
                    Vec::new()
                } else {
                    let mut changes: Vec<Change> = Vec::new();
                    changes.push(
                        Change::new(1, ChangeType::ReplacedWhiteSpaceOnlyFileWithOneLine),
                    );
                    proof {
                        assert(changes@ =~= engine_changes(input_data@, *options));
                    }
                    changes
                }
            },
        };
    }
    // Index into the input buffer.
    let mut i: usize = 0;

    // List of changes between input and output.
    let mut changes: Vec<Change> = Vec::new();

    // Line number. It is incremented every time we encounter a new end of line marker.
    let mut line_number: usize = 1;

    // Position one byte past the end of the last line in the output buffer,
    // including the last end of line marker.
    let mut last_end_of_line_including_eol_marker: usize = 0;

    // Position one byte past the last non-whitespace character in the output buffer.
    let mut last_non_whitespace: usize = 0;

    // Position one byte past the end of the last non-empty line in the output buffer,
    // excluding the last end of line marker.
    let mut last_end_of_non_empty_line_excluding_eol_marker: usize = 0;

    // Position one byte past the end of the last non-empty line in the output buffer,
    // including the last end of line marker.
    let mut last_end_of_non_empty_line_including_eol_marker: usize = 0;

    // Line number of the last non-empty line.
    let mut last_non_empty_line_number: usize = 0;

    let ghost e = max_bytes_per_input_byte(*options);
    proof {
        assert(input_data@.len() + 2 <= usize::MAX) by (nonlinear_arith)
            requires
                input_data@.len() * e + 2 <= usize::MAX,
                e >= 2,
        ;
    }

    while i < input_data.len()
        invariant
            i <= input_data@.len(),
            input_data@.len() + 2 <= usize::MAX,
            output_fits(input_data@, *options),
            e == max_bytes_per_input_byte(*options),
            output_new_line_marker == target,
            target == resolve_new_line_marker(options.new_line_marker, input_data@),
            writer.bytes().len() <= i * e,
            last_non_whitespace <= writer.bytes().len(),
            last_end_of_line_including_eol_marker <= writer.bytes().len(),
            options.remove_trailing_whitespace
                ==> last_end_of_non_empty_line_excluding_eol_marker <= last_non_whitespace,
            last_end_of_non_empty_line_excluding_eol_marker
                <= last_end_of_non_empty_line_including_eol_marker,
            last_end_of_non_empty_line_including_eol_marker
                <= last_end_of_line_including_eol_marker,
            1 <= line_number,
            line_number <= i + 1,
            last_non_empty_line_number < line_number,
            scan(
                input_data@,
                *options,
                target,
                i as int,
                st_of(
                    writer.bytes(),
                    changes@,
                    line_number,
                    last_end_of_line_including_eol_marker,
                    last_non_whitespace,
                    last_end_of_non_empty_line_excluding_eol_marker,
                    last_end_of_non_empty_line_including_eol_marker,
                    last_non_empty_line_number,
                ),
            ) == scan(input_data@, *options, target, 0, initial_scan_state()),
        decreases input_data@.len() - i,
    {
        let ghost i0 = i as int;
        let ghost st0 = st_of(
            writer.bytes(),
            changes@,
            line_number,
            last_end_of_line_including_eol_marker,
            last_non_whitespace,
            last_end_of_non_empty_line_excluding_eol_marker,
            last_end_of_non_empty_line_including_eol_marker,
            last_non_empty_line_number,
        );
        proof {
            lemma_iteration_room(
                writer.bytes().len() as int,
                i0,
                input_data@.len() as int,
                e,
            );
        }
        if input_data[i] == CARRIAGE_RETURN || input_data[i] == LINE_FEED {
            // Parse the new line marker.
            let new_line_marker: NewLineMarker;
            if input_data[i] == LINE_FEED {
                new_line_marker = NewLineMarker::Linux;
            } else if i < input_data.len() - 1 && input_data[i + 1] == LINE_FEED {
                new_line_marker = NewLineMarker::Windows;
                // Windows new line marker consists of two bytes.
                // Skip the extra byte.
                i += 1;
            } else {
                new_line_marker = NewLineMarker::MacOs;
            }
            proof {
                assert(new_line_marker == marker_at(input_data@, i0));
                assert(i as int + 1 == i0 + marker_width(input_data@, i0));
            }
            // Remove trailing whitespace.
            let rewind_to = if last_non_whitespace > last_end_of_line_including_eol_marker {
                last_non_whitespace
            } else {
                last_end_of_line_including_eol_marker
            };
            if options.remove_trailing_whitespace && rewind_to < writer.position() {
                changes.push(Change::new(line_number, ChangeType::RemovedTrailingWhitespace));
                writer.rewind(rewind_to);
            }
            // Determine if the line being closed is empty.
            let is_empty_line: bool = last_end_of_line_including_eol_marker == writer.position();

            // Position one byte past the end of the last line in the output buffer,
            // excluding the last end of line marker.
            let last_end_of_line_excluding_eol_marker: usize = writer.position();

            // Add new line marker.
            if options.normalize_new_line_markers && output_new_line_marker != new_line_marker {
                changes.push(
                    Change::new(
                        line_number,
                        ChangeType::ReplacedNewLineMarker(new_line_marker, output_new_line_marker),
                    ),
                );
                let marker = output_new_line_marker.to_bytes();
                writer.write_bytes(marker.as_slice());
            } else {
                let marker = new_line_marker.to_bytes();
                writer.write_bytes(marker.as_slice());
            }
            last_end_of_line_including_eol_marker = writer.position();

            // Update position of the last non-empty line.
            if !is_empty_line {
                last_end_of_non_empty_line_excluding_eol_marker =
                    last_end_of_line_excluding_eol_marker;
                last_end_of_non_empty_line_including_eol_marker =
                    last_end_of_line_including_eol_marker;
                last_non_empty_line_number = line_number;
            }
            line_number += 1;
            proof {
                let st1 = st_of(
                    writer.bytes(),
                    changes@,
                    line_number,
                    last_end_of_line_including_eol_marker,
                    last_non_whitespace,
                    last_end_of_non_empty_line_excluding_eol_marker,
                    last_end_of_non_empty_line_including_eol_marker,
                    last_non_empty_line_number,
                );
                assert(st1 =~= scan_end_of_line(*options, target, new_line_marker, st0));
                lemma_iteration_growth(
                    writer.bytes().len() as int,
                    st0.out.len() as int,
                    i0,
                    marker_width(input_data@, i0),
                    e,
                );
            }
        } else if input_data[i] == SPACE {
            writer.write(input_data[i]);
            proof {
                let st1 = st_of(
                    writer.bytes(),
                    changes@,
                    line_number,
                    last_end_of_line_including_eol_marker,
                    last_non_whitespace,
                    last_end_of_non_empty_line_excluding_eol_marker,
                    last_end_of_non_empty_line_including_eol_marker,
                    last_non_empty_line_number,
                );
                assert(st1 =~= scan_space(st0));
                lemma_iteration_growth(
                    writer.bytes().len() as int,
                    st0.out.len() as int,
                    i0,
                    1,
                    e,
                );
            }
        } else if input_data[i] == TAB {
            if options.replace_tabs_with_spaces < 0 {
                writer.write(input_data[i]);
            } else if options.replace_tabs_with_spaces > 0 {
                changes.push(
                    Change::new(
                        line_number,
                        ChangeType::ReplacedTabWithSpaces(options.replace_tabs_with_spaces),
                    ),
                );
                let ghost base = writer.bytes();
                let mut j: isize = 0;
                while j < options.replace_tabs_with_spaces
                    invariant
                        0 <= j <= options.replace_tabs_with_spaces,
                        options.replace_tabs_with_spaces as int <= e,
                        base.len() + e + 2 <= usize::MAX,
                        writer.bytes() == base + Seq::new(j as nat, |k: int| SPACE),
                    decreases options.replace_tabs_with_spaces - j,
                {
                    writer.write(SPACE);
                    proof {
                        assert(base + Seq::new((j + 1) as nat, |k: int| SPACE)
                            =~= (base + Seq::new(j as nat, |k: int| SPACE)).push(SPACE));
                    }
                    j += 1;
                }
            } else {
                // Remove the tab character.
                changes.push(Change::new(line_number, ChangeType::RemovedTab));
            }
            proof {
                let st1 = st_of(
                    writer.bytes(),
                    changes@,
                    line_number,
                    last_end_of_line_including_eol_marker,
                    last_non_whitespace,
                    last_end_of_non_empty_line_excluding_eol_marker,
                    last_end_of_non_empty_line_including_eol_marker,
                    last_non_empty_line_number,
                );
                assert(st1 =~= scan_tab(*options, st0));
                lemma_iteration_growth(
                    writer.bytes().len() as int,
                    st0.out.len() as int,
                    i0,
                    1,
                    e,
                );
            }
        } else if input_data[i] == VERTICAL_TAB || input_data[i] == FORM_FEED {
            match options.normalize_non_standard_whitespace {
                NonStandardWhitespaceReplacementMode::Ignore => {
                    writer.write(input_data[i]);
                },
                NonStandardWhitespaceReplacementMode::ReplaceWithSpace => {
                    writer.write(SPACE);
                    changes.push(
                        Change::new(
                            line_number,
                            ChangeType::ReplacedNonstandardWhitespaceBySpace(input_data[i]),
                        ),
                    );
                },
                NonStandardWhitespaceReplacementMode::Remove => {
                    // Remove the non-standard whitespace character.
                    changes.push(
                        Change::new(
                            line_number,
                            ChangeType::RemovedNonstandardWhitespace(input_data[i]),
                        ),
                    );
                },
            }
            proof {
                let st1 = st_of(
                    writer.bytes(),
                    changes@,
                    line_number,
                    last_end_of_line_including_eol_marker,
                    last_non_whitespace,
                    last_end_of_non_empty_line_excluding_eol_marker,
                    last_end_of_non_empty_line_including_eol_marker,
                    last_non_empty_line_number,
                );
                assert(st1 =~= scan_non_standard_whitespace(
                    *options,
                    input_data@[i0],
                    st0,
                ));
                lemma_iteration_growth(
                    writer.bytes().len() as int,
                    st0.out.len() as int,
                    i0,
                    1,
                    e,
                );
            }
        } else {
            writer.write(input_data[i]);
            last_non_whitespace = writer.position();
            proof {
                let st1 = st_of(
                    writer.bytes(),
                    changes@,
                    line_number,
                    last_end_of_line_including_eol_marker,
                    last_non_whitespace,
                    last_end_of_non_empty_line_excluding_eol_marker,
                    last_end_of_non_empty_line_including_eol_marker,
                    last_non_empty_line_number,
                );
                assert(st1 =~= scan_other(input_data@[i0], st0));
                lemma_iteration_growth(
                    writer.bytes().len() as int,
                    st0.out.len() as int,
                    i0,
                    1,
                    e,
                );
            }
        }
        // Move to the next byte.
        i += 1;
    }
    let ghost st_scanned = st_of(
        writer.bytes(),
        changes@,
        line_number,
        last_end_of_line_including_eol_marker,
        last_non_whitespace,
        last_end_of_non_empty_line_excluding_eol_marker,
        last_end_of_non_empty_line_including_eol_marker,
        last_non_empty_line_number,
    );
    proof {
        assert(st_scanned == scan(input_data@, *options, target, 0, initial_scan_state()));
    }
    // Remove trailing whitespace from the last line.
    if options.remove_trailing_whitespace && last_end_of_line_including_eol_marker
        < writer.position() && last_non_whitespace < writer.position() {
        changes.push(Change::new(line_number, ChangeType::RemovedTrailingWhitespace));
        writer.rewind(last_non_whitespace);
    }
    let ghost st_f1 = st_of(
        writer.bytes(),
        changes@,
        line_number,
        last_end_of_line_including_eol_marker,
        last_non_whitespace,
        last_end_of_non_empty_line_excluding_eol_marker,
        last_end_of_non_empty_line_including_eol_marker,
        last_non_empty_line_number,
    );
    proof {
        assert(st_f1 =~= finish_trailing_whitespace(*options, st_scanned));
    }
    // Remove trailing empty lines.
    if options.remove_trailing_empty_lines && last_end_of_line_including_eol_marker
        == writer.position() && last_end_of_non_empty_line_including_eol_marker
        < writer.position() {
        line_number = last_non_empty_line_number + 1;
        last_end_of_line_including_eol_marker = last_end_of_non_empty_line_including_eol_marker;
        changes.push(Change::new(line_number, ChangeType::RemovedEmptyLines));
        writer.rewind(last_end_of_non_empty_line_including_eol_marker);
    }
    let ghost st_f2 = st_of(
        writer.bytes(),
        changes@,
        line_number,
        last_end_of_line_including_eol_marker,
        last_non_whitespace,
        last_end_of_non_empty_line_excluding_eol_marker,
        last_end_of_non_empty_line_including_eol_marker,
        last_non_empty_line_number,
    );
    proof {
        assert(st_f2 =~= finish_trailing_empty_lines(*options, st_f1));
    }
    // Add a new line marker at the end of the file.
    if options.add_new_line_marker_at_end_of_file && last_end_of_line_including_eol_marker
        != writer.position() {
        changes.push(Change::new(line_number, ChangeType::NewLineMarkerAddedToEndOfFile));
        let marker = output_new_line_marker.to_bytes();
        writer.write_bytes(marker.as_slice());
        last_end_of_line_including_eol_marker = writer.position();
        line_number += 1;
    }
    let ghost st_f3 = st_of(
        writer.bytes(),
        changes@,
        line_number,
        last_end_of_line_including_eol_marker,
        last_non_whitespace,
        last_end_of_non_empty_line_excluding_eol_marker,
        last_end_of_non_empty_line_including_eol_marker,
        last_non_empty_line_number,
    );
    proof {
        assert(st_f3 =~= finish_add_end_of_file_marker(*options, target, st_f2));
    }
    // Remove the new line marker from the end of the file.
    if options.remove_new_line_marker_from_end_of_file && last_end_of_line_including_eol_marker
        == writer.position() && line_number >= 2 {
        line_number = last_non_empty_line_number;
        changes.push(Change::new(line_number, ChangeType::NewLineMarkerRemovedFromEndOfFile));
        writer.rewind(last_end_of_non_empty_line_excluding_eol_marker);
    }
    proof {
        let st_f4 = st_of(
            writer.bytes(),
            changes@,
            line_number,
            last_end_of_line_including_eol_marker,
            last_non_whitespace,
            last_end_of_non_empty_line_excluding_eol_marker,
            last_end_of_non_empty_line_including_eol_marker,
            last_non_empty_line_number,
        );
        assert(st_f4 =~= finish_remove_end_of_file_marker(*options, st_f3));
        assert(st_f4 == finish(*options, target, st_scanned));
    }
    changes
}

/// Formats or checks the content of a single file and returns the list of
/// changes that have been or would have been made. The first pass runs the
/// engine against a counting sink to obtain the change list and the needed
/// capacity; bytes are materialized by a second pass only when changes
/// exist and `check_only` is false. Reading and writing the file itself is
/// the caller's business.
pub fn process(input_data: &[u8], options: &Options, check_only: bool) -> (r: (
    Option<Vec<u8>>,
    Vec<Change>,
))
    requires
        output_fits(input_data@, *options),
    ensures
        r.1@ == engine_changes(input_data@, *options),
        r.0 is Some <==> (!check_only && engine_changes(input_data@, *options).len() > 0),
        r.0 matches Some(out) ==> out@ == engine_output(input_data@, *options),
{
    let mut counting_writer = CountingWriter::new();
    let changes: Vec<Change> = modify_content(input_data, options, &mut counting_writer);
    if !check_only && !changes.is_empty() {
        let mut output_writer: Vec<u8> = Vec::with_capacity(counting_writer.maximum_position());
        let _changes_again = modify_content(input_data, options, &mut output_writer);
        (Some(output_writer), changes)
    } else {
        (None, changes)
    }
}

} // verus!
