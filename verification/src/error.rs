//! Why a build fails.

use vstd::prelude::*;
use vstd::string::*;
use crate::resolve::{NoSuiteFound, NoSuiteFoundView};

verus! {

/// Why a build came to nothing.
#[derive(Debug, PartialEq, Eq)]
pub enum BuildError {
    /// No locator found an installed suite.
    NoSuiteFound(NoSuiteFound),
    /// The primary header of a library is not where it should be.
    HeaderNotFound { path: String },
    /// The variable that names the output directory gave no value.
    OutputDirMissing { detail: String },
    /// Creating a directory, writing a file or printing failed.
    Io { detail: String },
    /// The binding generator failed.
    Generator { diagnostic: String },
    /// The driver answered another query than the one it was asked.
    UnexpectedReply,
}

/// What a `BuildError` holds.
pub enum BuildErrorView {
    NoSuiteFound(NoSuiteFoundView),
    HeaderNotFound { path: Seq<char> },
    OutputDirMissing { detail: Seq<char> },
    Io { detail: Seq<char> },
    Generator { diagnostic: Seq<char> },
    UnexpectedReply,
}

impl View for BuildError {
    type V = BuildErrorView;

    open spec fn view(&self) -> BuildErrorView {
        match self {
            BuildError::NoSuiteFound(error) => BuildErrorView::NoSuiteFound(error@),
            BuildError::HeaderNotFound { path } => BuildErrorView::HeaderNotFound { path: path@ },
            BuildError::OutputDirMissing { detail } => BuildErrorView::OutputDirMissing {
                detail: detail@,
            },
            BuildError::Io { detail } => BuildErrorView::Io { detail: detail@ },
            BuildError::Generator { diagnostic } => BuildErrorView::Generator {
                diagnostic: diagnostic@,
            },
            BuildError::UnexpectedReply => BuildErrorView::UnexpectedReply,
        }
    }
}

impl BuildErrorView {
    /// The error in words. A missing header is named between quotes; what the
    /// generator or the file system said is handed on word for word.
    pub open spec fn message(self) -> Seq<char> {
        match self {
            BuildErrorView::NoSuiteFound(error) => error.message(),
            BuildErrorView::HeaderNotFound { path } => "Could not find \""@ + path + "\""@,
            BuildErrorView::OutputDirMissing { detail } => detail,
            BuildErrorView::Io { detail } => detail,
            BuildErrorView::Generator { diagnostic } => diagnostic,
            BuildErrorView::UnexpectedReply => "the reply does not answer the query"@,
        }
    }
}

impl BuildError {
    /// Puts the error in words.
    pub fn message(&self) -> (text: String)
        ensures
            text@ == self@.message(),
    {
        match self {
            BuildError::NoSuiteFound(error) => error.message(),
            BuildError::HeaderNotFound { path } => {
                let mut text = String::from_str("Could not find \"");
                text.append(path.as_str());
                text.append("\"");
                text
            },
            BuildError::OutputDirMissing { detail } => detail.clone(),
            BuildError::Io { detail } => detail.clone(),
            BuildError::Generator { diagnostic } => diagnostic.clone(),
            BuildError::UnexpectedReply => String::from_str(
                "the reply does not answer the query",
            ),
        }
    }
}

} // verus!
