//! Error taxonomy of the toolkit.
//!
//! Every failure a library operation can report is one of these variants;
//! each carries a human-readable detail string.

use vstd::prelude::*;

verus! {

/// Error raised by the toolkit's operations.
#[derive(Debug, Clone, PartialEq, Eq)]
pub enum GHASError {
    /// A repository reference string could not be handled.
    RepositoryReferenceError(String),
    /// A CodeQL CLI invocation failed.
    CodeQLError(String),
    /// A database precondition or its on-disk configuration is invalid.
    CodeQLDatabaseError(String),
    /// A pack specifier or pack manifest is invalid.
    CodeQLPackError(String),
    /// A filesystem operation failed.
    IoError(String),
    /// A YAML or JSON document could not be decoded.
    FormatError(String),
    /// Any other failure.
    UnknownError(String),
}

impl GHASError {
    /// The detail string carried by the error.
    pub open spec fn spec_detail(&self) -> Seq<char> {
        match self {
            GHASError::RepositoryReferenceError(s) => s@,
            GHASError::CodeQLError(s) => s@,
            GHASError::CodeQLDatabaseError(s) => s@,
            GHASError::CodeQLPackError(s) => s@,
            GHASError::IoError(s) => s@,
            GHASError::FormatError(s) => s@,
            GHASError::UnknownError(s) => s@,
        }
    }

    /// The kind tag rendered in front of the detail string.
    pub open spec fn spec_tag(&self) -> Seq<char> {
        match self {
            GHASError::RepositoryReferenceError(_) => "RepositoryReferenceError: "@,
            GHASError::CodeQLError(_) => "CodeQLError: "@,
            GHASError::CodeQLDatabaseError(_) => "CodeQLDatabaseError: "@,
            GHASError::CodeQLPackError(_) => "CodeQLPackError: "@,
            GHASError::IoError(_) => "IoError: "@,
            GHASError::FormatError(_) => "FormatError: "@,
            GHASError::UnknownError(_) => "UnknownError: "@,
        }
    }

    /// Render the error as `Kind: detail`.
    pub fn to_string(&self) -> (r: String)
        ensures
            r@ == self.spec_tag() + self.spec_detail(),
    {
        let mut out = String::new();
        match self {
            GHASError::RepositoryReferenceError(s) => {
                out.append("RepositoryReferenceError: ");
                out.append(s.as_str());
            }
            GHASError::CodeQLError(s) => {
                out.append("CodeQLError: ");
                out.append(s.as_str());
            }
            GHASError::CodeQLDatabaseError(s) => {
                out.append("CodeQLDatabaseError: ");
                out.append(s.as_str());
            }
            GHASError::CodeQLPackError(s) => {
                out.append("CodeQLPackError: ");
                out.append(s.as_str());
            }
            GHASError::IoError(s) => {
                out.append("IoError: ");
                out.append(s.as_str());
            }
            GHASError::FormatError(s) => {
                out.append("FormatError: ");
                out.append(s.as_str());
            }
            GHASError::UnknownError(s) => {
                out.append("UnknownError: ");
                out.append(s.as_str());
            }
        }
        out
    }
}

} // verus!
