//! Pack operations against the CodeQL CLI: argument construction for
//! resolving a pack's queries and downloading a pack, and the trimming of
//! resolved query paths back to pack-relative form.

use vstd::prelude::*;

use crate::cli::CodeQL;
use crate::packs::CodeQLPack;
use crate::queries::{CodeQLQueries, spec_parse};
use crate::text;

verus! {

/// CodeQL Pack Handler
#[derive(Debug)]
pub struct CodeQLPackHandler<'db, 'ql> {
    /// Reference to the CodeQL Pack
    pub pack: &'db CodeQLPack,
    /// Reference to the CodeQL instance
    pub codeql: &'ql CodeQL,
    /// Optional suite name for the pack
    pub suite: Option<String>,
}

impl<'db, 'ql> CodeQLPackHandler<'db, 'ql> {
    /// The suite that applies: the handler's own, else the CLI wrapper's
    /// default.
    pub open spec fn spec_effective_suite(&self) -> Option<Seq<char>> {
        match self.suite {
            Some(s) => Some(s@),
            None => match self.codeql.suite {
                Some(s) => Some(s@),
                None => None,
            },
        }
    }

    /// The pack name handed to `resolve queries`: the full name, with
    /// `:<suite>` appended when a suite applies.
    pub open spec fn spec_resolve_name(&self) -> Seq<char> {
        match self.spec_effective_suite() {
            Some(s) => self.pack.spec_full_name() + seq![':'] + s,
            None => self.pack.spec_full_name(),
        }
    }

    /// Creates a new CodeQLPackHandler with the given pack and CodeQL
    /// instance.
    pub fn new(pack: &'db CodeQLPack, codeql: &'ql CodeQL) -> (r: Self)
        ensures
            r.pack == pack,
            r.codeql == codeql,
            r.suite is None,
    {
        Self { pack, codeql, suite: None }
    }

    /// Sets the suite for the pack handler from a specifier string: the
    /// suite is the specifier's path component; an empty string leaves the
    /// rendered parse error as the suite, as a diagnostic.
    pub fn suite(self, suite: &str) -> (r: Self)
        ensures
            suite@.len() == 0 ==> (r.suite matches Some(m)
                && m@ == "CodeQLPackError: "@ + "CodeQLQueries cannot be empty"@),
            suite@.len() > 0 ==> match r.suite {
                Some(s) => spec_parse(suite@).path == Some(s@),
                None => spec_parse(suite@).path is None,
            },
            r.pack == self.pack,
            r.codeql == self.codeql,
    {
        let suite: Option<String> = match CodeQLQueries::parse(suite) {
            Ok(q) => q.suite(),
            Err(e) => Some(e.to_string()),
        };
        CodeQLPackHandler { suite, ..self }
    }

    /// The suite that applies, if any.
    pub fn get_suite(&self) -> (r: Option<String>)
        ensures
            match r {
                Some(s) => self.spec_effective_suite() == Some(s@),
                None => self.spec_effective_suite() is None,
            },
    {
        if let Some(suite) = &self.suite {
            return Some(suite.clone());
        }
        if let Some(suite) = &self.codeql.suite {
            return Some(suite.clone());
        }
        None
    }

    /// The `resolve queries` argument vector for the pack, naming the pack
    /// (and suite) to resolve with JSON output.
    pub fn resolve_cmd(&self) -> (r: Vec<String>)
        ensures
            r.deep_view() == seq!["resolve"@, "queries"@, "--format=json"@,
                self.spec_resolve_name()],
    {
        let mut name = self.pack.full_name();
        if let Some(suite) = self.get_suite() {
            text::push_char(&mut name, ':');
            name.append(suite.as_str());
            proof {
                assert(name@ =~= self.spec_resolve_name());
            }
        }
        let mut args: Vec<String> = Vec::new();
        args.push("resolve".to_owned());
        args.push("queries".to_owned());
        args.push("--format=json".to_owned());
        args.push(name);
        proof {
            assert(args.deep_view() =~= seq!["resolve"@, "queries"@, "--format=json"@,
                self.spec_resolve_name()]);
        }
        args
    }

    /// The pack path prefix stripped from resolved query paths: the pack's
    /// path with a trailing `/` ensured.
    pub open spec fn spec_pack_prefix(&self) -> Seq<char> {
        let p = self.pack.path@;
        if p.len() > 0 && p[p.len() - 1] == '/' {
            p
        } else {
            p + seq!['/']
        }
    }

    /// Strip the pack's path from each resolved query path, leaving the
    /// query path relative to the pack; every occurrence of the prefix is
    /// removed.
    pub fn resolve_output(&self, queries: &Vec<String>) -> (r: Vec<String>)
        ensures
            r@.len() == queries@.len(),
            forall|i: int| 0 <= i < queries@.len()
                ==> (#[trigger] r@[i])@ == text::spec_remove_all(
                    queries@[i]@,
                    self.spec_pack_prefix(),
                ),
    {
        let mut pack_path = self.pack.path();
        let n = pack_path.as_str().unicode_len();
        if n == 0 || pack_path.as_str().get_char(n - 1) != '/' {
            text::push_char(&mut pack_path, '/');
        }
        proof {
            assert(pack_path@ == self.spec_pack_prefix());
        }
        let mut out: Vec<String> = Vec::new();
        let qn = queries.len();
        let mut i: usize = 0;
        while i < qn
            invariant
                qn == queries@.len(),
                0 <= i <= qn,
                pack_path@ == self.spec_pack_prefix(),
                pack_path@.len() >= 1,
                out@.len() == i,
                forall|j: int| 0 <= j < i ==> (#[trigger] out@[j])@ == text::spec_remove_all(
                    queries@[j]@,
                    self.spec_pack_prefix(),
                ),
            decreases qn - i,
        {
            let stripped = text::remove_all(queries[i].as_str(), pack_path.as_str());
            out.push(stripped);
            i += 1;
        }
        out
    }

    /// The `pack download` argument vector for the pack.
    pub fn download_cmd(&self) -> (r: Vec<String>)
        ensures
            r.deep_view() == seq!["pack"@, "download"@, self.pack.spec_full_name()],
    {
        let mut args: Vec<String> = Vec::new();
        args.push("pack".to_owned());
        args.push("download".to_owned());
        args.push(self.pack.full_name());
        proof {
            assert(args.deep_view() =~= seq!["pack"@, "download"@,
                self.pack.spec_full_name()]);
        }
        args
    }
}

impl CodeQL {
    /// Pass a CodeQLPack to the CodeQL CLI to return a CodeQLPackHandler.
    /// This handler can be used to construct resolve and download commands
    /// for the pack.
    pub fn pack<'a>(&'a self, pack: &'a CodeQLPack) -> (r: CodeQLPackHandler<'a, 'a>)
        ensures
            r.pack == pack,
            r.codeql == self,
            r.suite is None,
    {
        CodeQLPackHandler::new(pack, self)
    }
}

} // verus!
