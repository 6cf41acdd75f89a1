use vstd::prelude::*;

use vstd::string::StringExecFns;

use crate::engine::char_to_str;
use crate::engine::char_to_str_spec;
use crate::engine::NewLineMarker;

verus! {

/// Type of formatting change made in a file.
#[derive(Clone, Copy, PartialEq, Eq, Structural, Debug)]
pub enum ChangeType {
    /// New line marker was added to the end of the file (because it was missing).
    NewLineMarkerAddedToEndOfFile,
    /// New line marker was removed from the end of the file.
    NewLineMarkerRemovedFromEndOfFile,
    /// New line marker was replaced by another one.
    ReplacedNewLineMarker(NewLineMarker, NewLineMarker),
    /// Whitespace at the end of a line was removed.
    RemovedTrailingWhitespace,
    /// Empty line(s) at the beginning of the file were removed.
    RemovedLeadingEmptyLines,
    /// Empty line(s) at the end of the file were removed.
    RemovedEmptyLines,
    /// An empty file was replaced by a file consisting of a single empty line.
    ReplacedEmptyFileWithOneLine,
    /// A file consisting of only whitespace was replaced by an empty file.
    ReplacedWhiteSpaceOnlyFileWithEmptyFile,
    /// A file consisting of only whitespace was replaced by a file
    /// consisting of a single empty line.
    ReplacedWhiteSpaceOnlyFileWithOneLine,
    /// A tab character was replaced by the given number of space characters.
    ReplacedTabWithSpaces(isize),
    /// A tab character was removed.
    RemovedTab,
    /// A non-standard whitespace character (`\f` or `\v`) was replaced by a space character.
    ReplacedNonstandardWhitespaceBySpace(u8),
    /// A non-standard whitespace character (`\f` or `\v`) was removed.
    RemovedNonstandardWhitespace(u8),
}

/// The character a decimal digit prints as.
pub open spec fn digit_char(d: int) -> char {
    if d == 0 {
        '0'
    } else if d == 1 {
        '1'
    } else if d == 2 {
        '2'
    } else if d == 3 {
        '3'
    } else if d == 4 {
        '4'
    } else if d == 5 {
        '5'
    } else if d == 6 {
        '6'
    } else if d == 7 {
        '7'
    } else if d == 8 {
        '8'
    } else {
        '9'
    }
}

/// Decimal digits of a non-negative number, most significant digit first.
pub open spec fn decimal_digits(n: int) -> Seq<char>
    decreases n,
{
    if n < 10 {
        seq![digit_char(n)]
    } else {
        decimal_digits(n / 10).push(digit_char(n % 10))
    }
}

/// Decimal rendering of a possibly negative number.
pub open spec fn decimal_string(n: int) -> Seq<char> {
    if n < 0 {
        seq!['-'] + decimal_digits(-n)
    } else {
        decimal_digits(n)
    }
}

/// Appends the decimal digits of `n` to `s`.
fn push_decimal_digits(s: &mut String, n: u64)
    ensures
        final(s)@ == old(s)@ + decimal_digits(n as int),
    decreases n,
{
    if n >= 10 {
        push_decimal_digits(s, n / 10);
    }
    let digit: &'static str = match n % 10 {
        0 => "0",
        1 => "1",
        2 => "2",
        3 => "3",
        4 => "4",
        5 => "5",
        6 => "6",
        7 => "7",
        8 => "8",
        _ => "9",
    };
    proof {
        reveal_strlit("0");
        reveal_strlit("1");
        reveal_strlit("2");
        reveal_strlit("3");
        reveal_strlit("4");
        reveal_strlit("5");
        reveal_strlit("6");
        reveal_strlit("7");
        reveal_strlit("8");
        reveal_strlit("9");
        assert(digit@ =~= seq![digit_char(n as int % 10)]);
    }
    s.append(digit);
    proof {
        if n < 10 {
            assert(final(s)@ =~= old(s)@ + decimal_digits(n as int));
        } else {
            assert(final(s)@ =~= old(s)@ + decimal_digits(n as int));
        }
    }
}

/// Appends the decimal rendering of `n`, with a leading minus sign when
/// `n` is negative.
fn push_decimal_isize(s: &mut String, n: isize)
    ensures
        final(s)@ == old(s)@ + decimal_string(n as int),
{
    if n < 0 {
        proof {
            reveal_strlit("-");
        }
        s.append("-");
        let magnitude: u64 = (-(n as i128)) as u64;
        push_decimal_digits(s, magnitude);
        proof {
            assert(final(s)@ =~= old(s)@ + decimal_string(n as int));
        }
    } else {
        push_decimal_digits(s, n as u64);
    }
}

/// Human-readable visible non-whitespace representation of a new line
/// marker, used in user reporting.
pub open spec fn marker_display(m: NewLineMarker) -> Seq<char> {
    match m {
        NewLineMarker::Linux => "\\n"@,
        NewLineMarker::MacOs => "\\r"@,
        NewLineMarker::Windows => "\\r\\n"@,
    }
}

impl NewLineMarker {
    /// Human-readable visible non-whitespace representation of a new line
    /// marker. This function is used in user reporting.
    pub fn display_str(&self) -> (r: &'static str)
        ensures
            r@ == marker_display(*self),
    {
        match self {
            NewLineMarker::Linux => "\\n",
            NewLineMarker::MacOs => "\\r",
            NewLineMarker::Windows => "\\r\\n",
        }
    }
}

/// The one-line description of a change, in past tense when the change was
/// applied (`check_only` false) and as a prospective statement when only
/// reporting (`check_only` true).
pub open spec fn change_type_string(t: ChangeType, check_only: bool) -> Seq<char> {
    match t {
        ChangeType::NewLineMarkerAddedToEndOfFile => if check_only {
            "New line marker needs to be added at the end of the file."@
        } else {
            "New line marker was added at the end of the file."@
        },
        ChangeType::NewLineMarkerRemovedFromEndOfFile => if check_only {
            "New line marker needs to be removed from the end of the file."@
        } else {
            "New line marker was removed from the end of the file."@
        },
        ChangeType::ReplacedNewLineMarker(from, to) => if check_only {
            "New line marker '"@ + marker_display(from) + "' needs to be replaced by '"@
                + marker_display(to) + "'."@
        } else {
            "New line marker '"@ + marker_display(from) + "' was replaced by '"@
                + marker_display(to) + "'."@
        },
        ChangeType::RemovedTrailingWhitespace => if check_only {
            "Trailing whitespace needs to be removed."@
        } else {
            "Trailing whitespace was removed."@
        },
        ChangeType::RemovedLeadingEmptyLines => if check_only {
            "Empty lines at the beginning of the file need to be removed."@
        } else {
            "Empty lines at the beginning of the file were removed."@
        },
        ChangeType::RemovedEmptyLines => if check_only {
            "Empty lines at the end of the file need to be removed."@
        } else {
            "Empty lines at the end of the file were removed."@
        },
        ChangeType::ReplacedEmptyFileWithOneLine => if check_only {
            "Empty file needs to be replaced by single empty line."@
        } else {
            "Empty file was replaced by a single empty line."@
        },
        ChangeType::ReplacedWhiteSpaceOnlyFileWithEmptyFile => if check_only {
            "File consisting of only whitespace needs to be replaced by an empty file."@
        } else {
            "File consisting of only whitespace was replaced by an empty file."@
        },
        ChangeType::ReplacedWhiteSpaceOnlyFileWithOneLine => if check_only {
            "File consisting of only whitespace needs to be replaced by a single empty line."@
        } else {
            "File consisting of only whitespace was replaced by a single empty line."@
        },
        ChangeType::ReplacedTabWithSpaces(number_of_spaces) => if check_only {
            "Tab character needs to be replaced by spaces or removed."@
        } else {
            "Tab character was replaced with "@ + decimal_string(number_of_spaces as int)
                + " spaces."@
        },
        ChangeType::RemovedTab => if check_only {
            "Tab character needs to be replaced by spaces or removed."@
        } else {
            "Tab character was removed."@
        },
        ChangeType::ReplacedNonstandardWhitespaceBySpace(c) => if check_only {
            "Non-standard whitespace character '"@ + char_to_str_spec(c)
                + "' needs to be replaced by a space."@
        } else {
            "Non-standard whitespace character '"@ + char_to_str_spec(c)
                + "' was replaced by a space."@
        },
        ChangeType::RemovedNonstandardWhitespace(c) => if check_only {
            "Non-standard whitespace character '"@ + char_to_str_spec(c)
                + "' needs to be removed."@
        } else {
            "Non-standard whitespace character '"@ + char_to_str_spec(c) + "' was removed."@
        },
    }
}

impl ChangeType {
    /// Human-readable representation of the change.
    pub fn to_string(&self, check_only: bool) -> (r: String)
        ensures
            r@ == change_type_string(*self, check_only),
    {
        match self {
            ChangeType::NewLineMarkerAddedToEndOfFile => {
                if check_only {
                    "New line marker needs to be added at the end of the file.".to_owned()
                } else {
                    "New line marker was added at the end of the file.".to_owned()
                }
            },
            ChangeType::NewLineMarkerRemovedFromEndOfFile => {
                if check_only {
                    "New line marker needs to be removed from the end of the file.".to_owned()
                } else {
                    "New line marker was removed from the end of the file.".to_owned()
                }
            },
            ChangeType::ReplacedNewLineMarker(from, to) => {
                let mut s = String::new();
                s.append("New line marker '");
                s.append(from.display_str());
                if check_only {
                    s.append("' needs to be replaced by '");
                } else {
                    s.append("' was replaced by '");
                }
                s.append(to.display_str());
                s.append("'.");
                s
            },
            ChangeType::RemovedTrailingWhitespace => {
                if check_only {
                    "Trailing whitespace needs to be removed.".to_owned()
                } else {
                    "Trailing whitespace was removed.".to_owned()
                }
            },
            ChangeType::RemovedLeadingEmptyLines => {
                if check_only {
                    "Empty lines at the beginning of the file need to be removed.".to_owned()
                } else {
                    "Empty lines at the beginning of the file were removed.".to_owned()
                }
            },
            ChangeType::RemovedEmptyLines => {
                if check_only {
                    "Empty lines at the end of the file need to be removed.".to_owned()
                } else {
                    "Empty lines at the end of the file were removed.".to_owned()
                }
            },
            ChangeType::ReplacedEmptyFileWithOneLine => {
                if check_only {
                    "Empty file needs to be replaced by single empty line.".to_owned()
                } else {
                    "Empty file was replaced by a single empty line.".to_owned()
                }
            },
            ChangeType::ReplacedWhiteSpaceOnlyFileWithEmptyFile => {
                if check_only {
                    "File consisting of only whitespace needs to be replaced by an empty file."
                        .to_owned()
                } else {
                    "File consisting of only whitespace was replaced by an empty file.".to_owned()
                }
            },
            ChangeType::ReplacedWhiteSpaceOnlyFileWithOneLine => {
                if check_only {
                    "File consisting of only whitespace needs to be replaced by a single empty line."
                        .to_owned()
                } else {
                    "File consisting of only whitespace was replaced by a single empty line."
                        .to_owned()
                }
            },
            ChangeType::ReplacedTabWithSpaces(number_of_spaces) => {
                if check_only {
                    "Tab character needs to be replaced by spaces or removed.".to_owned()
                } else {
                    let mut s = String::new();
                    s.append("Tab character was replaced with ");
                    push_decimal_isize(&mut s, *number_of_spaces);
                    s.append(" spaces.");
                    s
                }
            },
            ChangeType::RemovedTab => {
                if check_only {
                    "Tab character needs to be replaced by spaces or removed.".to_owned()
                } else {
                    "Tab character was removed.".to_owned()
                }
            },
            ChangeType::ReplacedNonstandardWhitespaceBySpace(c) => {
                let mut s = String::new();
                s.append("Non-standard whitespace character '");
                s.append(char_to_str(*c));
                if check_only {
                    s.append("' needs to be replaced by a space.");
                } else {
                    s.append("' was replaced by a space.");
                }
                s
            },
            ChangeType::RemovedNonstandardWhitespace(c) => {
                let mut s = String::new();
                s.append("Non-standard whitespace character '");
                s.append(char_to_str(*c));
                if check_only {
                    s.append("' needs to be removed.");
                } else {
                    s.append("' was removed.");
                }
                s
            },
        }
    }
}

/// A formatting change that was made or would be made to a file.
/// The location of the change is identified by its line number,
/// counted in the output stream.
#[derive(Clone, Copy, PartialEq, Eq, Structural, Debug)]
pub struct Change {
    pub line_number: usize,
    pub change_type: ChangeType,
}

/// The one-line report for a change: `line <n>: <description>`.
pub open spec fn change_string(c: Change, check_only: bool) -> Seq<char> {
    "line "@ + decimal_digits(c.line_number as int) + ": "@ + change_type_string(
        c.change_type,
        check_only,
    )
}

impl Change {
    /// Constructor.
    pub fn new(line_number: usize, change_type: ChangeType) -> (c: Change)
        ensures
            c == (Change { line_number, change_type }),
    {
        Change { line_number, change_type }
    }

    /// Human-readable representation of the change.
    pub fn to_string(&self, check_only: bool) -> (r: String)
        ensures
            r@ == change_string(*self, check_only),
    {
        let mut s = String::new();
        s.append("line ");
        push_decimal_digits(&mut s, self.line_number as u64);
        s.append(": ");
        let description = self.change_type.to_string(check_only);
        s.append(description.as_str());
        s
    }
}

} // verus!
