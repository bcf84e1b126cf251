//! CodeQL CLI release selection.

use vstd::prelude::*;

use crate::text;

verus! {

/// Which release of the CodeQL CLI to use.
#[derive(Debug, Clone, PartialEq, Eq)]
pub enum CodeQLVersion {
    /// Latest stable CodeQL version
    Latest,
    /// Nightly version
    Nightly,
    /// Specific version of CodeQL
    Version(String),
}

impl CodeQLVersion {
    /// The channel or version string the selection renders to.
    pub open spec fn spec_render(&self) -> Seq<char> {
        match self {
            CodeQLVersion::Latest => "latest"@,
            CodeQLVersion::Nightly => "nightly"@,
            CodeQLVersion::Version(v) => v@,
        }
    }

    /// Parse a version token.
    pub fn parse(value: &str) -> (r: Self)
        ensures
            (value@ == "latest"@ || value@ == "stable"@) ==> r == CodeQLVersion::Latest,
            (value@ == "nightly"@ || value@ == "unstable"@) ==> r == CodeQLVersion::Nightly,
            !(value@ == "latest"@ || value@ == "stable"@ || value@ == "nightly"@
                || value@ == "unstable"@) ==> (r matches CodeQLVersion::Version(v)
                && v@ == value@),
    {
        proof {
            reveal_strlit("latest");
            reveal_strlit("stable");
            reveal_strlit("nightly");
            reveal_strlit("unstable");
            assert("latest"@.len() == 6 && "stable"@.len() == 6 && "nightly"@.len() == 7
                && "unstable"@.len() == 8);
            assert("latest"@ != "stable"@) by {
                assert("latest"@[0] == 'l' && "stable"@[0] == 's');
            }
        }
        if text::str_eq(value, "latest") || text::str_eq(value, "stable") {
            CodeQLVersion::Latest
        } else if text::str_eq(value, "nightly") || text::str_eq(value, "unstable") {
            CodeQLVersion::Nightly
        } else {
            CodeQLVersion::Version(value.to_owned())
        }
    }

    /// Render the selection as a string.
    pub fn to_string(&self) -> (r: String)
        ensures
            r@ == self.spec_render(),
    {
        match self {
            CodeQLVersion::Latest => "latest".to_owned(),
            CodeQLVersion::Nightly => "nightly".to_owned(),
            CodeQLVersion::Version(v) => v.clone(),
        }
    }
}

impl From<&str> for CodeQLVersion {
    /// Same classification as [`CodeQLVersion::parse`].
    fn from(value: &str) -> (r: Self)
        ensures
            (value@ == "latest"@ || value@ == "stable"@) ==> r == CodeQLVersion::Latest,
            (value@ == "nightly"@ || value@ == "unstable"@) ==> r == CodeQLVersion::Nightly,
            !(value@ == "latest"@ || value@ == "stable"@ || value@ == "nightly"@
                || value@ == "unstable"@) ==> (r matches CodeQLVersion::Version(v)
                && v@ == value@),
    {
        CodeQLVersion::parse(value)
    }
}

impl vstd::std_specs::convert::FromSpecImpl<&str> for CodeQLVersion {
    open spec fn obeys_from_spec() -> bool {
        false
    }

    open spec fn from_spec(v: &str) -> Self {
        arbitrary()
    }
}

impl Default for CodeQLVersion {
    /// The latest stable release.
    fn default() -> (r: Self)
        ensures
            r == CodeQLVersion::Latest,
    {
        CodeQLVersion::Latest
    }
}

} // verus!
