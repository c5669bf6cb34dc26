use vstd::prelude::*;

verus! {

/// The failures this library reports.
#[derive(Clone, Debug, PartialEq, Eq)]
pub enum ToolsetError {
    /// A configuration file could not be read into the expected shape:
    /// the file's path and a diagnostic.
    InvalidConfigError(String, String),
    /// No directory on the path is named after the framework: the
    /// lowercased framework name and the file's path.
    LanguageNotFoundError(String, String),
    /// The path has no parent directory with a name: the file's path.
    ProjectNameError(String),
}

pub type ToolsetResult<T> = Result<T, ToolsetError>;

/// A `ToolsetError` with its texts as sequences of characters.
pub ghost enum ErrorView {
    InvalidConfig(Seq<char>, Seq<char>),
    LanguageNotFound(Seq<char>, Seq<char>),
    ProjectName(Seq<char>),
}

impl View for ToolsetError {
    type V = ErrorView;

    open spec fn view(&self) -> ErrorView {
        match self {
            ToolsetError::InvalidConfigError(f, d) => ErrorView::InvalidConfig(f@, d@),
            ToolsetError::LanguageNotFoundError(n, f) => ErrorView::LanguageNotFound(n@, f@),
            ToolsetError::ProjectNameError(f) => ErrorView::ProjectName(f@),
        }
    }
}

} // verus!
