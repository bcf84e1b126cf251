//! The CodeQL CLI wrapper configuration.
//!
//! A [`CodeQL`] value holds everything an invocation of the `codeql`
//! executable depends on: the executable path, thread and RAM hints, search
//! paths, additional pack directories, a registry authentication token, a
//! default suite, and whether output is echoed live. The value is built once
//! and only cloned afterwards. Argument vectors are assembled here; the
//! process is spawned by the surrounding application, which also locates the
//! executable and supplies its path.

use vstd::prelude::*;

use crate::errors::GHASError;
use crate::text;

verus! {

/// CodeQL CLI Wrapper to make it easier to run CodeQL commands
#[derive(Debug, Clone)]
pub struct CodeQL {
    /// CodeQL CLI Version, once probed
    pub version: Option<String>,
    /// Path to the CodeQL CLI
    pub path: String,
    /// Number of threads to use; 0 lets the CLI decide
    pub threads: usize,
    /// Amount of RAM to use, in megabytes
    pub ram: Option<usize>,
    /// The search path for the CodeQL CLI
    pub search_path: Vec<String>,
    /// Additional packs to use
    pub additional_packs: Vec<String>,
    /// Token to use for authentication with CodeQL registries
    pub token: Option<String>,
    /// Default suite to use if not specified
    pub suite: Option<String>,
    /// Shows the output of the command
    pub showoutput: bool,
}

impl CodeQL {
    /// The colon-joined search path handed to `--search-path`.
    pub open spec fn spec_search_paths(&self) -> Seq<char> {
        text::spec_join(self.search_path.deep_view(), ':')
    }

    /// The comma-joined pack list handed to `--additional-packs`.
    pub open spec fn spec_additional_packs(&self) -> Seq<char> {
        text::spec_join(self.additional_packs.deep_view(), ',')
    }

    /// Create a new CodeQL instance with nothing configured; the
    /// surrounding application fills in the executable path it located.
    pub fn new() -> (r: Self)
        ensures
            r.version is None,
            r.path@ == Seq::<char>::empty(),
            r.threads == 0,
            r.ram is None,
            r.search_path@.len() == 0,
            r.additional_packs@.len() == 0,
            r.token is None,
            r.suite is None,
            r.showoutput,
    {
        CodeQL {
            version: None,
            path: String::new(),
            threads: 0,
            ram: None,
            search_path: Vec::new(),
            additional_packs: Vec::new(),
            token: None,
            suite: None,
            showoutput: true,
        }
    }

    /// Get the CodeQL CLI path
    pub fn path(&self) -> (r: &String)
        ensures
            r@ == self.path@,
    {
        &self.path
    }

    /// Set the CodeQL CLI path
    pub fn set_path(&mut self, path: String)
        ensures
            final(self).path@ == path@,
            final(self).version == old(self).version,
            final(self).threads == old(self).threads,
            final(self).ram == old(self).ram,
            final(self).search_path == old(self).search_path,
            final(self).additional_packs == old(self).additional_packs,
            final(self).token == old(self).token,
            final(self).suite == old(self).suite,
            final(self).showoutput == old(self).showoutput,
    {
        self.path = path;
    }

    /// Initialize a new CodeQL Builder instance
    pub fn init() -> (r: CodeQLBuilder)
        ensures
            r.path is None,
            r.threads == 0,
            r.ram == 0,
            r.search_paths@.len() == 0,
            r.additional_packs@.len() == 0,
            !r.showoutput,
    {
        CodeQLBuilder {
            path: None,
            threads: 0,
            ram: 0,
            search_paths: Vec::new(),
            additional_packs: Vec::new(),
            showoutput: false,
        }
    }

    /// Get the search paths set for the CodeQL CLI to use, joined by `:`.
    pub fn search_paths(&self) -> (r: String)
        ensures
            r@ == self.spec_search_paths(),
    {
        proof {
            reveal_strlit(":");
        }
        text::join(&self.search_path, ":")
    }

    /// Append `--search-path <paths>` to `args` when any search path is
    /// configured; otherwise leave `args` unchanged.
    pub fn add_search_path(&self, args: &mut Vec<String>)
        ensures
            self.search_path@.len() == 0 ==> final(args).deep_view() == old(
                args,
            ).deep_view(),
            self.search_path@.len() > 0 ==> final(args).deep_view() == old(args).deep_view()
                + seq!["--search-path"@, self.spec_search_paths()],
    {
        if self.search_path.len() > 0 {
            let ghost before = args.deep_view();
            let flag: String = "--search-path".to_owned();
            let joined = self.search_paths();
            args.push(flag);
            args.push(joined);
            proof {
                assert(args.deep_view() =~= before
                    + seq!["--search-path"@, self.spec_search_paths()]);
            }
        }
    }

    /// Append a search path to the CodeQL CLI
    pub fn append_search_path(&mut self, path: &str)
        ensures
            final(self).search_path.deep_view() == old(self).search_path.deep_view()
                + seq![path@],
            final(self).version == old(self).version,
            final(self).path == old(self).path,
            final(self).threads == old(self).threads,
            final(self).ram == old(self).ram,
            final(self).additional_packs == old(self).additional_packs,
            final(self).token == old(self).token,
            final(self).suite == old(self).suite,
            final(self).showoutput == old(self).showoutput,
    {
        let ghost before = self.search_path.deep_view();
        self.search_path.push(path.to_owned());
        proof {
            assert(self.search_path.deep_view() =~= before + seq![path@]);
        }
    }

    /// Append `--additional-packs <packs>` to `args` when any additional
    /// pack is configured; otherwise leave `args` unchanged.
    pub fn add_additional_packs(&self, args: &mut Vec<String>)
        ensures
            self.additional_packs@.len() == 0 ==> final(args).deep_view() == old(
                args,
            ).deep_view(),
            self.additional_packs@.len() > 0 ==> final(args).deep_view() == old(
                args,
            ).deep_view() + seq!["--additional-packs"@, self.spec_additional_packs()],
    {
        if self.additional_packs.len() > 0 {
            let ghost before = args.deep_view();
            let flag: String = "--additional-packs".to_owned();
            proof {
                reveal_strlit(",");
            }
            let joined = text::join(&self.additional_packs, ",");
            args.push(flag);
            args.push(joined);
            proof {
                assert(args.deep_view() =~= before
                    + seq!["--additional-packs"@, self.spec_additional_packs()]);
            }
        }
    }

    /// Get the default suite for the CodeQL CLI: the configured one, or
    /// `code-scanning`.
    pub fn default_suite(&self) -> (r: String)
        ensures
            r@ == match self.suite {
                Some(s) => s@,
                None => "code-scanning"@,
            },
    {
        match &self.suite {
            Some(s) => s.clone(),
            None => "code-scanning".to_owned(),
        }
    }

    /// Add an external extractor to the CodeQL CLI (search path)
    pub fn add_extractor(&mut self, extractor: &crate::extractors::CodeQLExtractor)
        ensures
            final(self).search_path.deep_view() == old(self).search_path.deep_view()
                + seq![extractor.path@],
            final(self).version == old(self).version,
            final(self).path == old(self).path,
            final(self).threads == old(self).threads,
            final(self).ram == old(self).ram,
            final(self).additional_packs == old(self).additional_packs,
            final(self).token == old(self).token,
            final(self).suite == old(self).suite,
            final(self).showoutput == old(self).showoutput,
    {
        let ghost before = self.search_path.deep_view();
        self.search_path.push(extractor.path.clone());
        proof {
            assert(self.search_path.deep_view() =~= before + seq![extractor.path@]);
        }
    }

    /// The environment variable an invocation must carry when a registry
    /// token is configured: `CODEQL_REGISTRIES_AUTH` with the token. The
    /// variable is set for the child process only; without a token nothing
    /// is injected.
    pub fn registry_auth(&self) -> (r: Option<(String, String)>)
        ensures
            match r {
                Some(kv) => self.token matches Some(t) && kv.0@ == "CODEQL_REGISTRIES_AUTH"@
                    && kv.1@ == t@,
                None => self.token is None,
            },
    {
        match &self.token {
            Some(t) => Some(("CODEQL_REGISTRIES_AUTH".to_owned(), t.clone())),
            None => None,
        }
    }

    /// The argument vector that probes the CLI's version in terse form.
    pub fn version_cmd() -> (r: Vec<String>)
        ensures
            r.deep_view() == seq!["version"@, "--format"@, "terse"@],
    {
        let mut args: Vec<String> = Vec::new();
        args.push("version".to_owned());
        args.push("--format".to_owned());
        args.push("terse".to_owned());
        proof {
            assert(args.deep_view() =~= seq!["version"@, "--format"@, "terse"@]);
        }
        args
    }

    /// The argument vector that lists the CLI's supported languages as
    /// JSON, carrying the configured search path when one is set.
    pub fn resolve_languages_cmd(&self) -> (r: Vec<String>)
        ensures
            self.search_path@.len() == 0 ==> r.deep_view() == seq!["resolve"@, "languages"@,
                "--format"@, "json"@],
            self.search_path@.len() > 0 ==> r.deep_view() == seq!["resolve"@, "languages"@,
                "--format"@, "json"@, "--search-path"@, self.spec_search_paths()],
    {
        let mut args: Vec<String> = Vec::new();
        args.push("resolve".to_owned());
        args.push("languages".to_owned());
        args.push("--format".to_owned());
        args.push("json".to_owned());
        proof {
            assert(args.deep_view() =~= seq!["resolve"@, "languages"@, "--format"@, "json"@]);
        }
        self.add_search_path(&mut args);
        args
    }

    /// Classify a finished invocation: a successful exit yields the
    /// captured stdout lines joined by newlines, any other exit is a
    /// CodeQL error.
    pub fn run_outcome(success: bool, output_lines: &Vec<String>) -> (r: Result<
        String,
        GHASError,
    >)
        ensures
            success ==> (r matches Ok(out) && out@ == text::spec_join(
                output_lines.deep_view(),
                '\n',
            )),
            !success ==> (r matches Err(e) && e matches GHASError::CodeQLError(m)
                && m@ == "Error running CodeQL command"@),
    {
        if success {
            proof {
                reveal_strlit("\n");
            }
            Ok(text::join(output_lines, "\n"))
        } else {
            Err(GHASError::CodeQLError("Error running CodeQL command".to_owned()))
        }
    }

    /// Get the version of the loaded CodeQL CLI
    pub fn version(&self) -> (r: Option<String>)
        ensures
            match r {
                Some(v) => self.version matches Some(sv) && sv@ == v@,
                None => self.version is None,
            },
    {
        match &self.version {
            Some(v) => Some(v.clone()),
            None => None,
        }
    }

    /// A field-preserving copy with live output switched off, used for
    /// machine-readable calls whose output must not be echoed.
    pub fn silent(&self) -> (r: Self)
        ensures
            !r.showoutput,
            r.version == self.version,
            r.path@ == self.path@,
            r.threads == self.threads,
            r.ram == self.ram,
            r.search_path.deep_view() == self.search_path.deep_view(),
            r.additional_packs.deep_view() == self.additional_packs.deep_view(),
            r.token == self.token,
            r.suite == self.suite,
    {
        CodeQL {
            version: match &self.version {
                Some(v) => Some(v.clone()),
                None => None,
            },
            path: self.path.clone(),
            threads: self.threads,
            ram: self.ram,
            search_path: crate::extractors::clone_string_vec(&self.search_path),
            additional_packs: crate::extractors::clone_string_vec(&self.additional_packs),
            token: match &self.token {
                Some(t) => Some(t.clone()),
                None => None,
            },
            suite: match &self.suite {
                Some(s) => Some(s.clone()),
                None => None,
            },
            showoutput: false,
        }
    }
}

impl Default for CodeQL {
    /// The unconfigured wrapper: no path, no version, live output on.
    fn default() -> (r: Self)
        ensures
            r.version is None,
            r.path@ == Seq::<char>::empty(),
            r.threads == 0,
            r.ram is None,
            r.search_path@.len() == 0,
            r.additional_packs@.len() == 0,
            r.token is None,
            r.suite is None,
            r.showoutput,
    {
        CodeQL::new()
    }
}

/// CodeQL Builder to make it easier to create a new CodeQL instance
#[derive(Debug, Clone, Default)]
pub struct CodeQLBuilder {
    /// Path to the CodeQL CLI, when picked explicitly
    pub path: Option<String>,
    /// Number of threads to use
    pub threads: usize,
    /// Amount of RAM to use, in megabytes
    pub ram: usize,
    /// Search paths for the CodeQL CLI
    pub search_paths: Vec<String>,
    /// Additional pack directories
    pub additional_packs: Vec<String>,
    /// Whether command output is echoed live
    pub showoutput: bool,
}

impl CodeQLBuilder {
    /// Set the path to the CodeQL CLI
    pub fn path(self, path: &str) -> (r: Self)
        ensures
            r.path matches Some(p) && p@ == path@,
            r.threads == self.threads,
            r.ram == self.ram,
            r.search_paths == self.search_paths,
            r.additional_packs == self.additional_packs,
            r.showoutput == self.showoutput,
    {
        CodeQLBuilder { path: Some(path.to_owned()), ..self }
    }

    /// Set manually the threads for CodeQL
    pub fn threads(self, threads: usize) -> (r: Self)
        ensures
            r.threads == threads,
            r.path == self.path,
            r.ram == self.ram,
            r.search_paths == self.search_paths,
            r.additional_packs == self.additional_packs,
            r.showoutput == self.showoutput,
    {
        CodeQLBuilder { threads, ..self }
    }

    /// Set manually the ram for CodeQL
    pub fn ram(self, ram: usize) -> (r: Self)
        ensures
            r.ram == ram,
            r.path == self.path,
            r.threads == self.threads,
            r.search_paths == self.search_paths,
            r.additional_packs == self.additional_packs,
            r.showoutput == self.showoutput,
    {
        CodeQLBuilder { ram, ..self }
    }

    /// Add additional packs to the CodeQL CLI
    pub fn additional_packs(self, path: &str) -> (r: Self)
        ensures
            r.additional_packs.deep_view() == self.additional_packs.deep_view()
                + seq![path@],
            r.path == self.path,
            r.threads == self.threads,
            r.ram == self.ram,
            r.search_paths == self.search_paths,
            r.showoutput == self.showoutput,
    {
        let mut packs = self.additional_packs;
        let ghost before = packs.deep_view();
        packs.push(path.to_owned());
        proof {
            assert(packs.deep_view() =~= before + seq![path@]);
        }
        CodeQLBuilder { additional_packs: packs, ..self }
    }

    /// Add a search path to the CodeQL CLI
    pub fn search_path(self, path: &str) -> (r: Self)
        ensures
            r.search_paths.deep_view() == self.search_paths.deep_view() + seq![path@],
            r.path == self.path,
            r.threads == self.threads,
            r.ram == self.ram,
            r.additional_packs == self.additional_packs,
            r.showoutput == self.showoutput,
    {
        let mut paths = self.search_paths;
        let ghost before = paths.deep_view();
        paths.push(path.to_owned());
        proof {
            assert(paths.deep_view() =~= before + seq![path@]);
        }
        CodeQLBuilder { search_paths: paths, ..self }
    }

    /// Set the show output flag for the CodeQL CLI
    pub fn show_output(self, show: bool) -> (r: Self)
        ensures
            r.showoutput == show,
            r.path == self.path,
            r.threads == self.threads,
            r.ram == self.ram,
            r.search_paths == self.search_paths,
            r.additional_packs == self.additional_packs,
    {
        CodeQLBuilder { showoutput: show, ..self }
    }

    /// Build the CodeQL instance from the configured values. The version
    /// is left unprobed and the path empty when none was set; the
    /// surrounding application locates the executable and probes the
    /// version before running commands.
    pub fn build(&self) -> (r: Result<CodeQL, GHASError>)
        ensures
            r matches Ok(c) && {
                &&& c.version is None
                &&& c.path@ == match self.path {
                    Some(p) => p@,
                    None => Seq::<char>::empty(),
                }
                &&& c.threads == self.threads
                &&& c.ram == Some(self.ram)
                &&& c.search_path.deep_view() == self.search_paths.deep_view()
                &&& c.additional_packs.deep_view() == self.additional_packs.deep_view()
                &&& c.token is None
                &&& c.suite is None
                &&& c.showoutput == self.showoutput
            },
    {
        let path: String = match &self.path {
            Some(p) => p.clone(),
            None => String::new(),
        };
        Ok(CodeQL {
            version: None,
            path,
            threads: self.threads,
            ram: Some(self.ram),
            search_path: crate::extractors::clone_string_vec(&self.search_paths),
            additional_packs: crate::extractors::clone_string_vec(&self.additional_packs),
            token: None,
            suite: None,
            showoutput: self.showoutput,
        })
    }
}

} // verus!
