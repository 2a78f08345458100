use vstd::prelude::*;

verus! {

/// The options whose value must be a decimal number.
#[derive(Clone, Copy, Debug, PartialEq, Eq, Structural)]
pub enum NumberOption {
    ConnectTimeout,
    MaxRedirects,
    MaxTime,
    ToEntry,
}

/// The files that must exist when they are named on the command line.
#[derive(Clone, Copy, Debug, PartialEq, Eq, Structural)]
pub enum FileRole {
    CaCertificate,
    VariablesFile,
}

/// Pairs of flags that may not be given together.
#[derive(Clone, Copy, Debug, PartialEq, Eq, Structural)]
pub enum Conflict {
    ColorAndNoColor,
    InteractiveAndToEntry,
    JsonAndNoOutput,
}

/// Why a configuration could not be resolved.
#[derive(Clone, Debug, PartialEq, Eq)]
pub enum ConfigError {
    /// A named file does not exist (or is not a regular file).
    FileNotFound(FileRole, String),
    /// The report path exists and is not a directory.
    InvalidDirectory(String),
    /// The report directory was missing and could not be created.
    DirectoryNotCreated(String),
    /// The value of a numeric option is not a decimal number in range.
    InvalidNumber(NumberOption),
    /// A glob pattern is invalid, or an entry could not be read while expanding one.
    GlobFailure,
    /// A line of the variables file could not be parsed; `line` counts from 1.
    ParseFailure { line: usize, source: String },
    /// An environment value or an inline assignment could not be parsed;
    /// the text is the variable's name or the whole assignment.
    InvalidVariable(String),
    /// Two mutually exclusive flags were both given.
    ConflictingFlags(Conflict),
}

/// A `ConfigError` with its texts as character sequences.
pub enum ConfigErrorView {
    FileNotFound(FileRole, Seq<char>),
    InvalidDirectory(Seq<char>),
    DirectoryNotCreated(Seq<char>),
    InvalidNumber(NumberOption),
    GlobFailure,
    ParseFailure { line: nat, source: Seq<char> },
    InvalidVariable(Seq<char>),
    ConflictingFlags(Conflict),
}

impl View for ConfigError {
    type V = ConfigErrorView;

    open spec fn view(&self) -> ConfigErrorView {
        match *self {
            ConfigError::FileNotFound(role, path) => ConfigErrorView::FileNotFound(role, path@),
            ConfigError::InvalidDirectory(path) => ConfigErrorView::InvalidDirectory(path@),
            ConfigError::DirectoryNotCreated(path) => ConfigErrorView::DirectoryNotCreated(path@),
            ConfigError::InvalidNumber(option) => ConfigErrorView::InvalidNumber(option),
            ConfigError::GlobFailure => ConfigErrorView::GlobFailure,
            ConfigError::ParseFailure { line, source } => ConfigErrorView::ParseFailure {
                line: line as nat,
                source: source@,
            },
            ConfigError::InvalidVariable(text) => ConfigErrorView::InvalidVariable(text@),
            ConfigError::ConflictingFlags(conflict) => ConfigErrorView::ConflictingFlags(conflict),
        }
    }
}

} // verus!
