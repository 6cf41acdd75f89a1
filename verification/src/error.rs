use vstd::prelude::*;

use vstd::string::StringExecFns;

verus! {

/// An error.
pub enum Error {
    /// File cannot be found.
    FileNotFound(String),
    /// Directory cannot be read.
    FailedToReadDirectory(String),
    /// Directory entry cannot be read.
    FailedToReadDirectoryEntry(String),
    /// Regular expression (for filtering files) is invalid.
    InvalidRegularExpression(String),
    /// Cannot read file.
    CannotReadFile(String),
    /// Cannot write file.
    CannotWriteFile(String),
}

/// The explanation each error prints as.
pub open spec fn error_message(e: Error) -> Seq<char> {
    match e {
        Error::FileNotFound(file_path) => "File not found "@ + file_path@ + "."@,
        Error::FailedToReadDirectory(directory_path) => "Failed to read directory "@
            + directory_path@ + "."@,
        Error::FailedToReadDirectoryEntry(directory_path) => "Failed to read an entry in directory "@
            + directory_path@ + "."@,
        Error::InvalidRegularExpression(regular_expression) => "Invalid regular expression "@
            + regular_expression@ + "."@,
        Error::CannotReadFile(file_path) => "Cannot read "@ + file_path@,
        Error::CannotWriteFile(file_path) => "Cannot write "@ + file_path@,
    }
}

impl Error {
    /// Human-readable explanation of an error.
    pub fn message(&self) -> (r: String)
        ensures
            r@ == error_message(*self),
    {
        match self {
            Error::FileNotFound(file_path) => {
                let mut s = "File not found ".to_owned();
                s.append(file_path.as_str());
                s.append(".");
                s
            },
            Error::FailedToReadDirectory(directory_path) => {
                let mut s = "Failed to read directory ".to_owned();
                s.append(directory_path.as_str());
                s.append(".");
                s
            },
            Error::FailedToReadDirectoryEntry(directory_path) => {
                let mut s = "Failed to read an entry in directory ".to_owned();
                s.append(directory_path.as_str());
                s.append(".");
                s
            },
            Error::InvalidRegularExpression(regular_expression) => {
                let mut s = "Invalid regular expression ".to_owned();
                s.append(regular_expression.as_str());
                s.append(".");
                s
            },
            Error::CannotReadFile(file_path) => {
                let mut s = "Cannot read ".to_owned();
                s.append(file_path.as_str());
                s
            },
            Error::CannotWriteFile(file_path) => {
                let mut s = "Cannot write ".to_owned();
                s.append(file_path.as_str());
                s
            },
        }
    }
}

} // verus!
