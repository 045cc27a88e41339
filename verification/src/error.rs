//! What can go wrong while a routing table is built.

use crate::method::Method;
use vstd::prelude::*;
use vstd::string::StringExecFns;

verus! {

/// Why a set of route declarations could not be made into a table.
#[derive(Debug)]
pub enum BuildError {
    /// A variant carries no attribute that gives a method and a path.
    MissingAttribute { variant: String },
    /// The route attribute of a variant is named after no method.
    UnknownMethod { variant: String, name: String },
    /// The engine refused the pattern compiled for a variant.
    InvalidPattern { variant: String, pattern: String },
    /// The engine refused the patterns of one method taken together.
    InvalidPatternSet { method: Method },
}

/// The mathematical form of a `BuildError`.
pub enum BuildErrorView {
    MissingAttribute { variant: Seq<char> },
    UnknownMethod { variant: Seq<char>, name: Seq<char> },
    InvalidPattern { variant: Seq<char>, pattern: Seq<char> },
    InvalidPatternSet { method: Method },
}

impl View for BuildError {
    type V = BuildErrorView;

    open spec fn view(&self) -> BuildErrorView {
        match self {
            BuildError::MissingAttribute { variant } => BuildErrorView::MissingAttribute {
                variant: variant@,
            },
            BuildError::UnknownMethod { variant, name } => BuildErrorView::UnknownMethod {
                variant: variant@,
                name: name@,
            },
            BuildError::InvalidPattern { variant, pattern } => BuildErrorView::InvalidPattern {
                variant: variant@,
                pattern: pattern@,
            },
            BuildError::InvalidPatternSet { method } => BuildErrorView::InvalidPatternSet {
                method: *method,
            },
        }
    }
}

impl BuildError {
    /// What `description` returns for each kind of error.
    pub open spec fn description_text(self) -> Seq<char> {
        match self {
            BuildError::MissingAttribute { .. } => "missing attribute on enum variant"@,
            BuildError::UnknownMethod { .. } => "unknown method on enum variant"@,
            BuildError::InvalidPattern { .. } => "invalid pattern for enum variant"@,
            BuildError::InvalidPatternSet { .. } => "invalid pattern set for method"@,
        }
    }

    /// What `message` returns: a line that names the variant at fault.
    pub open spec fn message_text(self) -> Seq<char> {
        match self {
            BuildError::MissingAttribute { variant } => "missing attribute on "@ + variant@,
            BuildError::UnknownMethod { variant, name } => "unknown method "@ + name@
                + " on "@ + variant@,
            BuildError::InvalidPattern { variant, pattern } => "invalid pattern "@ + pattern@
                + " for "@ + variant@,
            BuildError::InvalidPatternSet { .. } => "invalid pattern set for method"@,
        }
    }

    /// A short name of the kind of error.
    pub fn description(&self) -> (text: &'static str)
        ensures
            text@ == self.description_text(),
    {
        match self {
            BuildError::MissingAttribute { .. } => "missing attribute on enum variant",
            BuildError::UnknownMethod { .. } => "unknown method on enum variant",
            BuildError::InvalidPattern { .. } => "invalid pattern for enum variant",
            BuildError::InvalidPatternSet { .. } => "invalid pattern set for method",
        }
    }

    /// The error as a line of text.
    pub fn message(&self) -> (text: String)
        ensures
            text@ == self.message_text(),
    {
        match self {
            BuildError::MissingAttribute { variant } => {
                String::from_str("missing attribute on ").concat(variant.as_str())
            },
            BuildError::UnknownMethod { variant, name } => {
                String::from_str("unknown method ").concat(name.as_str()).concat(
                    " on ",
                ).concat(variant.as_str())
            },
            BuildError::InvalidPattern { variant, pattern } => {
                String::from_str("invalid pattern ").concat(pattern.as_str()).concat(
                    " for ",
                ).concat(variant.as_str())
            },
            BuildError::InvalidPatternSet { .. } => String::from_str(
                "invalid pattern set for method",
            ),
        }
    }
}

} // verus!
