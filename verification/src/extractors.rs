//! CodeQL extractor descriptors.
//!
//! An extractor pack describes one language frontend of the CodeQL CLI:
//! its name, version, supported build modes and file types. The values in
//! this module mirror the fields of an extractor's `codeql-extractor.yml`;
//! reading that file from disk is left to the surrounding application, which
//! hands the parsed plain values to this module.

use vstd::prelude::*;

verus! {

/// How a CodeQL database is built for a compiled language.
#[derive(Debug, Clone, PartialEq, Eq, Structural)]
pub enum BuildMode {
    /// `build-mode: none` or `buildless`
    Buildless,
    /// The CLI attempts to build the project itself.
    AutoBuild,
    /// The caller supplies an explicit build command.
    Manual,
}

impl BuildMode {
    /// Classification used by [`BuildMode::parse`]: `none` and `buildless`
    /// name the buildless mode, `autobuild` the automatic one, `manual` the
    /// manual one, and anything else falls back to buildless.
    pub open spec fn spec_parse(s: Seq<char>) -> BuildMode {
        let low = crate::text::spec_lower(s);
        if low == "none"@ || low == "buildless"@ {
            BuildMode::Buildless
        } else if low == "autobuild"@ {
            BuildMode::AutoBuild
        } else if low == "manual"@ {
            BuildMode::Manual
        } else {
            BuildMode::Buildless
        }
    }

    /// Parse a build-mode token, case-insensitively.
    pub fn parse(value: &str) -> (r: BuildMode)
        ensures
            r == BuildMode::spec_parse(value@),
    {
        let low = crate::text::to_lowercase(value);
        let l = low.as_str();
        if crate::text::str_eq(l, "none") || crate::text::str_eq(l, "buildless") {
            BuildMode::Buildless
        } else if crate::text::str_eq(l, "autobuild") {
            BuildMode::AutoBuild
        } else if crate::text::str_eq(l, "manual") {
            BuildMode::Manual
        } else {
            BuildMode::Buildless
        }
    }
}

impl From<&str> for BuildMode {
    /// Same classification as [`BuildMode::parse`].
    fn from(value: &str) -> (r: Self)
        ensures
            r == BuildMode::spec_parse(value@),
    {
        BuildMode::parse(value)
    }
}

impl vstd::std_specs::convert::FromSpecImpl<&str> for BuildMode {
    open spec fn obeys_from_spec() -> bool {
        false
    }

    open spec fn from_spec(v: &str) -> Self {
        arbitrary()
    }
}

/// Copy a vector of strings, preserving its contents.
pub(crate) fn clone_string_vec(v: &Vec<String>) -> (r: Vec<String>)
    ensures
        r.deep_view() == v.deep_view(),
{
    let mut out: Vec<String> = Vec::new();
    let n = v.len();
    let mut i: usize = 0;
    while i < n
        invariant
            n == v.len(),
            0 <= i <= n,
            out@.len() == i,
            forall|j: int| 0 <= j < i ==> #[trigger] out@[j]@ == v@[j]@,
        decreases n - i,
    {
        let item = v[i].clone();
        assert(item@ == v@[i as int]@);
        out.push(item);
        i += 1;
    }
    proof {
        assert forall|j: int| 0 <= j < n
            implies #[trigger] out.deep_view()[j] == v.deep_view()[j] by {
            assert(out@[j]@ == v@[j]@);
        }
        assert(out.deep_view() =~= v.deep_view());
    }
    out
}

/// One file type recognized by an extractor.
#[derive(Debug, Clone)]
pub struct CodeQLExtractorFileType {
    /// Name
    pub name: String,
    /// Display name
    pub display_name: String,
    /// File extensions
    pub extensions: Vec<String>,
}

/// A CodeQL extractor pack, as described by its `codeql-extractor.yml`.
#[derive(Debug, Clone)]
pub struct CodeQLExtractor {
    /// Root directory of the extractor pack
    pub path: String,
    /// The name of the extractor
    pub name: String,
    /// The display name of the extractor
    pub display_name: String,
    /// The version of the extractor
    pub version: String,
    /// The build modes
    pub build_modes: Vec<String>,
    /// Column kind
    pub column_kind: Option<String>,
    /// Legacy QLTest extraction
    pub legacy_qltest_extraction: Option<bool>,
    /// GitHub API languages
    pub github_api_languages: Option<Vec<String>>,
    /// SCC languages
    pub scc_languages: Option<Vec<String>>,
    /// File types
    pub file_types: Vec<CodeQLExtractorFileType>,
}

impl CodeQLExtractor {
    /// True of an extractor whose every field is empty or absent.
    pub open spec fn spec_is_default(&self) -> bool {
        &&& self.path@ == Seq::<char>::empty()
        &&& self.name@ == Seq::<char>::empty()
        &&& self.display_name@ == Seq::<char>::empty()
        &&& self.version@ == Seq::<char>::empty()
        &&& self.build_modes@ == Seq::<String>::empty()
        &&& self.column_kind is None
        &&& self.legacy_qltest_extraction is None
        &&& self.github_api_languages is None
        &&& self.scc_languages is None
        &&& self.file_types@ == Seq::<CodeQLExtractorFileType>::empty()
    }

    /// The languages the extractor reports to the GitHub API, or nothing.
    pub open spec fn spec_languages(&self) -> Seq<Seq<char>> {
        match self.github_api_languages {
            Some(v) => v.deep_view(),
            None => Seq::empty(),
        }
    }

    /// Supported languages of the extractor.
    pub fn languages(&self) -> (r: Vec<String>)
        ensures
            r.deep_view() == self.spec_languages(),
    {
        match &self.github_api_languages {
            Some(v) => clone_string_vec(v),
            None => {
                let results: Vec<String> = Vec::new();
                proof {
                    assert(results.deep_view() =~= Seq::<Seq<char>>::empty());
                }
                results
            }
        }
    }

    /// A field-preserving copy with the extractor's name and supported
    /// languages carried over.
    pub(crate) fn duplicate(&self) -> (r: Self)
        ensures
            r.name@ == self.name@,
            r.spec_languages() == self.spec_languages(),
    {
        let github_api_languages: Option<Vec<String>> = match &self.github_api_languages {
            Some(v) => Some(clone_string_vec(v)),
            None => None,
        };
        CodeQLExtractor {
            path: self.path.clone(),
            name: self.name.clone(),
            display_name: self.display_name.clone(),
            version: self.version.clone(),
            build_modes: self.build_modes.clone(),
            column_kind: self.column_kind.clone(),
            legacy_qltest_extraction: self.legacy_qltest_extraction,
            github_api_languages,
            scc_languages: self.scc_languages.clone(),
            file_types: self.file_types.clone(),
        }
    }

    /// The build-mode tokens of the extractor, classified. Here the token
    /// `auto` (not `autobuild`) selects the automatic mode, matching what an
    /// extractor's manifest declares.
    pub open spec fn spec_build_mode_token(s: Seq<char>) -> BuildMode {
        if s == "none"@ || s == "buildless"@ {
            BuildMode::Buildless
        } else if s == "auto"@ {
            BuildMode::AutoBuild
        } else if s == "manual"@ {
            BuildMode::Manual
        } else {
            BuildMode::Buildless
        }
    }

    /// Classify the extractor's declared build modes.
    pub fn build_modes(&self) -> (r: Vec<BuildMode>)
        ensures
            r@.len() == self.build_modes@.len(),
            forall|i: int| 0 <= i < r@.len()
                ==> r@[i] == CodeQLExtractor::spec_build_mode_token(
                    self.build_modes@[i]@,
                ),
    {
        let mut out: Vec<BuildMode> = Vec::new();
        let n = self.build_modes.len();
        let mut i: usize = 0;
        while i < n
            invariant
                n == self.build_modes@.len(),
                0 <= i <= n,
                out@.len() == i,
                forall|j: int| 0 <= j < i
                    ==> out@[j] == CodeQLExtractor::spec_build_mode_token(
                        self.build_modes@[j]@,
                    ),
            decreases n - i,
        {
            let mode = self.build_modes[i].as_str();
            let m: BuildMode = if crate::text::str_eq(mode, "none")
                || crate::text::str_eq(mode, "buildless") {
                BuildMode::Buildless
            } else if crate::text::str_eq(mode, "auto") {
                BuildMode::AutoBuild
            } else if crate::text::str_eq(mode, "manual") {
                BuildMode::Manual
            } else {
                BuildMode::Buildless
            };
            out.push(m);
            i += 1;
        }
        out
    }
}

impl Default for CodeQLExtractor {
    /// An extractor with every field empty or absent.
    fn default() -> (r: Self)
        ensures
            r.spec_is_default(),
    {
        CodeQLExtractor {
            path: String::new(),
            name: String::new(),
            display_name: String::new(),
            version: String::new(),
            build_modes: Vec::new(),
            column_kind: None,
            legacy_qltest_extraction: None,
            github_api_languages: None,
            scc_languages: None,
            file_types: Vec::new(),
        }
    }
}

} // verus!
