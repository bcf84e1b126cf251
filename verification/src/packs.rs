//! CodeQL packs: manifest records, classification, and resolution.
//!
//! A pack is a directory holding a `qlpack.yml` manifest and optionally a
//! `codeql-pack.lock.yml` lock file. A pack reference is resolved in a fixed
//! order — local filesystem, the local package cache, and finally a
//! "reference-only" pack carrying just the parsed specifier — and the
//! classification of a manifest into Library / Queries / Models / Testing
//! follows a fixed precedence. Filesystem probing and YAML decoding are done
//! by the surrounding application, which hands their outcomes to the
//! functions here as plain values.

use vstd::prelude::*;

use crate::errors::GHASError;
use crate::languages::CodeQLLanguage;
use crate::queries::{CodeQLQueries, spec_empty_queries, spec_parse};
use crate::text;

verus! {

/// CodeQL Pack Type
#[derive(Debug, Clone, Copy, PartialEq, Eq, Structural)]
pub enum CodeQLPackType {
    /// CodeQL Library
    Library,
    /// CodeQL Queries
    Queries,
    /// CodeQL Models
    Models,
    /// CodeQL Testing
    Testing,
}

impl CodeQLPackType {
    /// The order packs are sorted in: libraries first, then queries,
    /// models, and testing packs.
    pub open spec fn spec_rank(self) -> int {
        match self {
            CodeQLPackType::Library => 0,
            CodeQLPackType::Queries => 1,
            CodeQLPackType::Models => 2,
            CodeQLPackType::Testing => 3,
        }
    }

    /// The sort rank of the pack type.
    pub fn rank(self) -> (r: u8)
        ensures
            r as int == self.spec_rank(),
    {
        match self {
            CodeQLPackType::Library => 0,
            CodeQLPackType::Queries => 1,
            CodeQLPackType::Models => 2,
            CodeQLPackType::Testing => 3,
        }
    }

    /// Render the pack type's name.
    pub fn to_string(&self) -> (r: String)
        ensures
            self is Library ==> r@ == "Library"@,
            self is Queries ==> r@ == "Queries"@,
            self is Models ==> r@ == "Models"@,
            self is Testing ==> r@ == "Testing"@,
    {
        match self {
            CodeQLPackType::Library => "Library".to_owned(),
            CodeQLPackType::Queries => "Queries".to_owned(),
            CodeQLPackType::Models => "Models".to_owned(),
            CodeQLPackType::Testing => "Testing".to_owned(),
        }
    }
}

impl Default for CodeQLPackType {
    /// Queries is the default classification.
    fn default() -> (r: Self)
        ensures
            r == CodeQLPackType::Queries,
    {
        CodeQLPackType::Queries
    }
}

/// CodeQL Pack Yaml Structure (`qlpack.yml`)
#[derive(Debug, Clone, Default)]
pub struct PackYaml {
    /// The Pack Name
    pub name: String,
    /// Pack is a Library or not
    pub library: Option<bool>,
    /// The Pack Version
    pub version: Option<String>,
    /// Pack Groups
    pub groups: Option<Vec<String>>,
    /// The Pack Dependencies (name, version range), in declaration order
    pub dependencies: Option<Vec<(String, String)>>,
    /// The Pack Suites
    pub suites: Option<String>,
    /// The Pack Default Suite File
    pub default_suite_file: Option<String>,
    /// The Pack Extractor name
    pub extractor: Option<String>,
    /// Extension Targets (target pack, language), in declaration order
    pub extension_targets: Option<Vec<(String, String)>>,
    /// Data Extensions
    pub data_extensions: Option<Vec<String>>,
    /// The Pack Tests Directory
    pub tests: Option<String>,
}

/// CodeQL Pack Lock Yaml Structure (`codeql-pack.lock.yml`)
#[derive(Debug, Clone, Default)]
pub struct PackYamlLock {
    /// Lock Version
    pub lock_version: String,
    /// Dependencies (name, pinned dependency), in declaration order
    pub dependencies: Vec<(String, PackYamlLockDependency)>,
    /// If the pack is compiled
    pub compiled: bool,
}

/// CodeQL Pack Lock Dependency
#[derive(Debug, Clone, Default)]
pub struct PackYamlLockDependency {
    /// Version
    pub version: String,
}

/// The classification a manifest receives. The precedence is fixed: a
/// library with data extensions is a Models pack, a library without them a
/// Library pack; a manifest that declares it is not a library is a Queries
/// pack; an undeclared manifest with tests is a Testing pack, one with data
/// extensions a Models pack, and anything else a Queries pack.
pub open spec fn spec_pack_type(
    library: Option<bool>,
    has_data_extensions: bool,
    has_tests: bool,
) -> CodeQLPackType {
    match library {
        Some(true) => if has_data_extensions {
            CodeQLPackType::Models
        } else {
            CodeQLPackType::Library
        },
        Some(false) => CodeQLPackType::Queries,
        None => if has_tests {
            CodeQLPackType::Testing
        } else if has_data_extensions {
            CodeQLPackType::Models
        } else {
            CodeQLPackType::Queries
        },
    }
}

/// The classification of a manifest record.
pub open spec fn spec_pack_type_of(y: PackYaml) -> CodeQLPackType {
    spec_pack_type(y.library, y.data_extensions is Some, y.tests is Some)
}

/// **Pack-type precedence law.** A manifest that both declares itself a
/// library and carries data extensions classifies as Models, never as
/// Library: the data extensions take precedence.
pub proof fn lemma_pack_type_precedence(y: PackYaml)
    requires
        y.library == Some(true),
        y.data_extensions is Some,
    ensures
        spec_pack_type_of(y) == CodeQLPackType::Models,
        spec_pack_type_of(y) != CodeQLPackType::Library,
{
}

/// CodeQL Pack
#[derive(Debug, Clone, Default)]
pub struct CodeQLPack {
    /// The parsed specifier addressing the pack
    pub queries: CodeQLQueries,
    /// Root path of the pack on disk; empty for a reference-only pack
    pub path: String,
    /// The manifest, once one was found and decoded
    pub pack: Option<PackYaml>,
    /// The classification derived from the manifest
    pub pack_type: Option<CodeQLPackType>,
    /// The lock file, when one was found beside the manifest
    pub pack_lock: Option<PackYamlLock>,
}

impl CodeQLPack {
    /// The pack's name: the name component of its specifier.
    pub open spec fn spec_name(&self) -> Seq<char> {
        match self.queries@.name {
            Some(n) => n,
            None => Seq::empty(),
        }
    }

    /// The pack's namespace: the scope component of its specifier.
    pub open spec fn spec_namespace(&self) -> Seq<char> {
        match self.queries@.scope {
            Some(s) => s,
            None => Seq::empty(),
        }
    }

    /// The version pinned in the specifier, if any.
    pub open spec fn spec_range(&self) -> Option<Seq<char>> {
        self.queries@.range
    }

    /// `namespace/name`, with `@version` appended when the specifier pins
    /// one.
    pub open spec fn spec_full_name(&self) -> Seq<char> {
        match self.spec_range() {
            Some(v) => self.spec_namespace() + seq!['/'] + self.spec_name() + seq!['@'] + v,
            None => self.spec_namespace() + seq!['/'] + self.spec_name(),
        }
    }

    /// Create a new CodeQL Pack from a specifier string such as
    /// `codeql/python-queries@1.0.0`; the result is reference-only (it
    /// carries no manifest).
    pub fn new(pack: &str) -> (r: Self)
        ensures
            pack@.len() > 0 ==> r.queries@ == spec_parse(pack@),
            pack@.len() == 0 ==> r.queries@ == spec_empty_queries(),
            r.path@ == Seq::<char>::empty(),
            r.pack is None,
            r.pack_type is None,
            r.pack_lock is None,
    {
        CodeQLPack {
            queries: CodeQLQueries::parse_or_default(pack),
            path: String::new(),
            pack: None,
            pack_type: None,
            pack_lock: None,
        }
    }

    /// A fully populated pack: the specifier is parsed from the manifest's
    /// name, and the classification is derived from the manifest.
    pub fn from_manifest(path: &str, pack: PackYaml, pack_lock: Option<PackYamlLock>) -> (r:
        Self)
        ensures
            pack.name@.len() > 0 ==> r.queries@ == spec_parse(pack.name@),
            pack.name@.len() == 0 ==> r.queries@ == spec_empty_queries(),
            r.path@ == path@,
            r.pack == Some(pack),
            r.pack_type == Some(spec_pack_type_of(pack)),
            r.pack_lock == pack_lock,
    {
        let queries = CodeQLQueries::parse_or_default(pack.name.as_str());
        let pack_type = Self::get_pack_type(&pack);
        CodeQLPack {
            queries,
            path: path.to_owned(),
            pack: Some(pack),
            pack_type: Some(pack_type),
            pack_lock,
        }
    }

    /// Get the pack name
    pub fn name(&self) -> (r: String)
        ensures
            r@ == self.spec_name(),
    {
        match &self.queries.name {
            Some(n) => n.clone(),
            None => String::new(),
        }
    }

    /// Get the pack namespace
    pub fn namespace(&self) -> (r: String)
        ensures
            r@ == self.spec_namespace(),
    {
        match &self.queries.scope {
            Some(s) => s.clone(),
            None => String::new(),
        }
    }

    /// Get full name (namespace/name, with @version when pinned)
    pub fn full_name(&self) -> (r: String)
        ensures
            r@ == self.spec_full_name(),
    {
        let mut out = self.namespace();
        proof {
            reveal_strlit("/");
            reveal_strlit("@");
        }
        out.append("/");
        let name = self.name();
        out.append(name.as_str());
        if let Some(v) = &self.queries.range {
            out.append("@");
            out.append(v.as_str());
            proof {
                assert(out@ =~= self.spec_full_name());
            }
        } else {
            proof {
                assert(out@ =~= self.spec_full_name());
            }
        }
        out
    }

    /// Get the root path of the CodeQL Pack
    pub fn path(&self) -> (r: String)
        ensures
            r@ == self.path@,
    {
        self.path.clone()
    }

    /// Get the pack version: the specifier's pinned version wins, then the
    /// manifest's declared version.
    pub fn version(&self) -> (r: Option<String>)
        ensures
            match r {
                Some(v) => {
                    ||| self.spec_range() == Some(v@)
                    ||| (self.spec_range() is None && match self.pack {
                        Some(p) => match p.version {
                            Some(pv) => pv@ == v@,
                            None => false,
                        },
                        None => false,
                    })
                },
                None => self.spec_range() is None && match self.pack {
                    Some(p) => p.version is None,
                    None => true,
                },
            },
    {
        if let Some(v) = &self.queries.range {
            return Some(v.clone());
        }
        if let Some(p) = &self.pack {
            if let Some(v) = &p.version {
                return Some(v.clone());
            }
        }
        None
    }

    /// Get the pack language based on the extractor or extension targets:
    /// the manifest's extractor names the language; otherwise the first
    /// extension target's language is used.
    pub fn language(&self) -> (r: Option<CodeQLLanguage>)
        ensures
            match r {
                Some(l) => {
                    &&& self.pack is Some
                    &&& l.spec_extractor().spec_is_default()
                    &&& match self.pack.unwrap().extractor {
                        Some(e) => l.spec_name() == e@,
                        None => {
                            &&& self.pack.unwrap().extension_targets matches Some(t)
                            &&& t.len() > 0
                            &&& l.spec_name() == t[0].1@
                        },
                    }
                },
                None => match self.pack {
                    Some(p) => p.extractor is None && (p.extension_targets matches Some(t)
                        ==> t@.len() == 0),
                    None => true,
                },
            },
    {
        if let Some(p) = &self.pack {
            if let Some(e) = &p.extractor {
                return Some(CodeQLLanguage::from_token(e.as_str()));
            }
            if let Some(targets) = &p.extension_targets {
                if targets.len() > 0 {
                    let lang = targets[0].1.as_str();
                    assert(lang@ == self.pack.unwrap().extension_targets.unwrap()[0].1@);
                    return Some(CodeQLLanguage::from_token(lang));
                }
            }
        }
        None
    }

    /// The dependency list the pack resolves with: pinned versions from the
    /// lock file when present, else the manifest's declared ranges, else
    /// nothing.
    pub fn dependencies(&self) -> (r: Vec<(String, String)>)
        ensures
            match self.pack_lock {
                Some(l) => r@.len() == l.dependencies@.len() && forall|i: int|
                    0 <= i < r@.len() ==> (#[trigger] r@[i]).0@ == l.dependencies@[i].0@
                        && r@[i].1@ == l.dependencies@[i].1.version@,
                None => match self.pack {
                    Some(p) => match p.dependencies {
                        Some(d) => r@.len() == d@.len() && forall|i: int|
                            0 <= i < r@.len() ==> (#[trigger] r@[i]).0@ == d@[i].0@
                                && r@[i].1@ == d@[i].1@,
                        None => r@.len() == 0,
                    },
                    None => r@.len() == 0,
                },
            },
    {
        let mut out: Vec<(String, String)> = Vec::new();
        if let Some(l) = &self.pack_lock {
            let n = l.dependencies.len();
            let mut i: usize = 0;
            while i < n
                invariant
                    n == l.dependencies@.len(),
                    0 <= i <= n,
                    out@.len() == i,
                    forall|j: int| 0 <= j < i ==> (#[trigger] out@[j]).0@
                        == l.dependencies@[j].0@ && out@[j].1@ == l.dependencies@[j].1.version@,
                decreases n - i,
            {
                let name = l.dependencies[i].0.clone();
                let version = l.dependencies[i].1.version.clone();
                out.push((name, version));
                i += 1;
            }
            return out;
        }
        if let Some(p) = &self.pack {
            if let Some(d) = &p.dependencies {
                let n = d.len();
                let mut i: usize = 0;
                while i < n
                    invariant
                        n == d@.len(),
                        0 <= i <= n,
                        out@.len() == i,
                        forall|j: int| 0 <= j < i ==> (#[trigger] out@[j]).0@ == d@[j].0@
                            && out@[j].1@ == d@[j].1@,
                    decreases n - i,
                {
                    let name = d[i].0.clone();
                    let version = d[i].1.clone();
                    out.push((name, version));
                    i += 1;
                }
                return out;
            }
        }
        out
    }

    /// Get the pack type; an unclassified pack counts as a Queries pack.
    pub fn pack_type(&self) -> (r: CodeQLPackType)
        ensures
            r == match self.pack_type {
                Some(t) => t,
                None => CodeQLPackType::Queries,
            },
    {
        match self.pack_type {
            Some(t) => t,
            None => CodeQLPackType::Queries,
        }
    }

    /// The effective classification used for sorting.
    pub open spec fn spec_type(&self) -> CodeQLPackType {
        match self.pack_type {
            Some(t) => t,
            None => CodeQLPackType::Queries,
        }
    }

    /// Based on the loaded manifest, determine the pack type.
    pub fn get_pack_type(pack_yaml: &PackYaml) -> (r: CodeQLPackType)
        ensures
            r == spec_pack_type_of(*pack_yaml),
    {
        match pack_yaml.library {
            Some(library) => {
                if library && pack_yaml.data_extensions.is_some() {
                    CodeQLPackType::Models
                } else if library {
                    CodeQLPackType::Library
                } else {
                    CodeQLPackType::Queries
                }
            }
            None => {
                if pack_yaml.tests.is_some() {
                    CodeQLPackType::Testing
                } else if pack_yaml.data_extensions.is_some() {
                    CodeQLPackType::Models
                } else {
                    CodeQLPackType::Queries
                }
            }
        }
    }

    /// Load a pack from the outcome of probing a directory. The surrounding
    /// application reads and decodes `qlpack.yml` and the lock file and
    /// hands the outcomes in: `None` for a file that is absent, `Err` with
    /// the decode failure text for one that is malformed. An absent
    /// directory or manifest is a pack error naming what is missing; a
    /// malformed manifest or lock file is a pack error wrapping the decode
    /// failure, checked in that order.
    pub fn load(
        path: &str,
        path_exists: bool,
        manifest: Option<Result<PackYaml, String>>,
        lock: Option<Result<PackYamlLock, String>>,
    ) -> (r: Result<Self, GHASError>)
        ensures
            !path_exists ==> (r matches Err(e) && e matches GHASError::CodeQLPackError(m)
                && m@ == path@),
            path_exists ==> match manifest {
                Some(Ok(y)) => match lock {
                    Some(Err(m)) => r matches Err(e)
                        && e matches GHASError::CodeQLPackError(em) && em@ == m@,
                    _ => r matches Ok(p) && {
                        &&& y.name@.len() > 0 ==> p.queries@ == spec_parse(y.name@)
                        &&& y.name@.len() == 0 ==> p.queries@ == spec_empty_queries()
                        &&& p.path@ == path@
                        &&& p.pack == Some(y)
                        &&& p.pack_type == Some(spec_pack_type_of(y))
                        &&& p.pack_lock == match lock {
                            Some(Ok(l)) => Some(l),
                            _ => None,
                        }
                    },
                },
                Some(Err(m)) => r matches Err(e) && e matches GHASError::CodeQLPackError(em)
                    && em@ == m@,
                None => r matches Err(e) && e matches GHASError::CodeQLPackError(m)
                    && m@ == "qlpack.yml file does not exist"@,
            },
    {
        if !path_exists {
            return Err(GHASError::CodeQLPackError(path.to_owned()));
        }
        match manifest {
            Some(Ok(y)) => match lock {
                Some(Ok(l)) => Ok(Self::from_manifest(path, y, Some(l))),
                Some(Err(m)) => Err(GHASError::CodeQLPackError(m)),
                None => Ok(Self::from_manifest(path, y, None)),
            },
            Some(Err(m)) => Err(GHASError::CodeQLPackError(m)),
            None => Err(GHASError::CodeQLPackError("qlpack.yml file does not exist".to_owned())),
        }
    }
}

/// The outcome of probing one candidate directory for a pack.
#[derive(Debug)]
pub enum PackProbe {
    /// The directory holds a manifest that decoded, with the lock file
    /// beside it when one decoded too: the directory path, the manifest,
    /// and the lock.
    Found(String, PackYaml, Option<PackYamlLock>),
    /// The directory exists but holds no `qlpack.yml`.
    MissingManifest,
    /// The directory's `qlpack.yml` or lock file failed to decode; the
    /// decode failure text.
    Malformed(String),
}

impl CodeQLPack {
    /// Resolve a pack reference against the outcomes of the two on-disk
    /// probes, in the fixed fallback order: an existing local directory
    /// settles the resolution — a decoded manifest wins, a missing or
    /// malformed one is a pack error; otherwise a package-cache match wins;
    /// and a reference the cache cannot serve (absent, manifest-less or
    /// malformed) becomes a reference-only pack rather than an error.
    pub fn resolve_from_sources(
        input: &str,
        local: Option<PackProbe>,
        cache: Option<PackProbe>,
    ) -> (r: Result<CodeQLPack, GHASError>)
        ensures
            match local {
                Some(PackProbe::Found(path, manifest, lock)) => r matches Ok(p) && {
                    &&& manifest.name@.len() > 0 ==> p.queries@ == spec_parse(manifest.name@)
                    &&& manifest.name@.len() == 0 ==> p.queries@ == spec_empty_queries()
                    &&& p.path@ == path@
                    &&& p.pack == Some(manifest)
                    &&& p.pack_type == Some(spec_pack_type_of(manifest))
                    &&& p.pack_lock == lock
                },
                Some(PackProbe::MissingManifest) => r matches Err(e)
                    && e matches GHASError::CodeQLPackError(m)
                    && m@ == "qlpack.yml file does not exist"@,
                Some(PackProbe::Malformed(msg)) => r matches Err(e)
                    && e matches GHASError::CodeQLPackError(m) && m@ == msg@,
                None => match cache {
                    Some(PackProbe::Found(path, manifest, lock)) => r matches Ok(p) && {
                        &&& manifest.name@.len() > 0 ==> p.queries@ == spec_parse(
                            manifest.name@,
                        )
                        &&& manifest.name@.len() == 0 ==> p.queries@ == spec_empty_queries()
                        &&& p.path@ == path@
                        &&& p.pack == Some(manifest)
                        &&& p.pack_type == Some(spec_pack_type_of(manifest))
                        &&& p.pack_lock == lock
                    },
                    _ => r matches Ok(p) && {
                        &&& p.pack is None
                        &&& p.pack_type is None
                        &&& p.pack_lock is None
                        &&& p.path@ == Seq::<char>::empty()
                        &&& input@.len() > 0 ==> p.queries@ == spec_parse(input@)
                        &&& input@.len() == 0 ==> p.queries@ == spec_empty_queries()
                    },
                },
            },
    {
        match local {
            Some(PackProbe::Found(path, manifest, lock)) => Ok(Self::from_manifest(
                path.as_str(),
                manifest,
                lock,
            )),
            Some(PackProbe::MissingManifest) => Err(GHASError::CodeQLPackError(
                "qlpack.yml file does not exist".to_owned(),
            )),
            Some(PackProbe::Malformed(msg)) => Err(GHASError::CodeQLPackError(msg)),
            None => match cache {
                Some(PackProbe::Found(path, manifest, lock)) => Ok(Self::from_manifest(
                    path.as_str(),
                    manifest,
                    lock,
                )),
                _ => Ok(Self::new(input)),
            },
        }
    }

    /// The `pack install` argument vector for the pack: installs the
    /// pack's dependencies under its root path.
    pub fn install_cmd(&self) -> (r: Vec<String>)
        ensures
            r.deep_view() == seq!["pack"@, "install"@, self.path@],
    {
        let mut args: Vec<String> = Vec::new();
        args.push("pack".to_owned());
        args.push("install".to_owned());
        args.push(self.path());
        proof {
            assert(args.deep_view() =~= seq!["pack"@, "install"@, self.path@]);
        }
        args
    }

    /// The `pack upgrade` argument vector for the pack.
    pub fn upgrade_cmd(&self) -> (r: Vec<String>)
        ensures
            r.deep_view() == seq!["pack"@, "upgrade"@, self.path@],
    {
        let mut args: Vec<String> = Vec::new();
        args.push("pack".to_owned());
        args.push("upgrade".to_owned());
        args.push(self.path());
        proof {
            assert(args.deep_view() =~= seq!["pack"@, "upgrade"@, self.path@]);
        }
        args
    }

    /// The `pack publish` argument vector for the pack; the registry
    /// authentication token travels in the environment, not here.
    pub fn publish_cmd(&self) -> (r: Vec<String>)
        ensures
            r.deep_view() == seq!["pack"@, "publish"@, self.path@],
    {
        let mut args: Vec<String> = Vec::new();
        args.push("pack".to_owned());
        args.push("publish".to_owned());
        args.push(self.path());
        proof {
            assert(args.deep_view() =~= seq!["pack"@, "publish"@, self.path@]);
        }
        args
    }

    /// The package-cache directory a `scope/name[@version]` reference lives
    /// under: `<cache root>/<scope>/<name>/<version>`, with `**` standing
    /// for any version when none is pinned.
    pub fn cache_pack_dir(base: &str, namespace: &str, name: &str, version: Option<&str>) -> (r:
        String)
        ensures
            r@ == text::spec_path_join(
                text::spec_path_join(text::spec_path_join(base@, namespace@), name@),
                match version {
                    Some(v) => v@,
                    None => "**"@,
                },
            ),
    {
        let a = text::path_join(base, namespace);
        let b = text::path_join(a.as_str(), name);
        match version {
            Some(v) => text::path_join(b.as_str(), v),
            None => text::path_join(b.as_str(), "**"),
        }
    }

    /// The package cache root under a home directory:
    /// `<home>/.codeql/packages`.
    pub fn codeql_packages_path(home: &str) -> (r: String)
        ensures
            r@ == text::spec_path_join(
                text::spec_path_join(home@, ".codeql"@),
                "packages"@,
            ),
    {
        let a = text::path_join(home, ".codeql");
        text::path_join(a.as_str(), "packages")
    }

    /// Of the matching cache entries, the one taken as newest: the
    /// lexicographically greatest path, mirroring how a sorted directory
    /// walk's last entry is picked. (Lexical order is not semantic-version
    /// order: `10.0.0` sorts before `9.0.0`.)
    pub fn pick_newest(entries: &Vec<String>) -> (r: Option<String>)
        ensures
            match r {
                Some(m) => {
                    &&& entries@.len() > 0
                    &&& exists|i: int| 0 <= i < entries@.len() && entries@[i]@ == m@
                    &&& forall|i: int| 0 <= i < entries@.len()
                        ==> text::spec_lex_le(#[trigger] entries@[i]@, m@)
                },
                None => entries@.len() == 0,
            },
    {
        let n = entries.len();
        if n == 0 {
            return None;
        }
        let mut best: String = entries[0].clone();
        let ghost mut best_idx: int = 0;
        proof {
            lemma_lex_le_refl(best@);
        }
        let mut i: usize = 1;
        while i < n
            invariant
                n == entries@.len(),
                1 <= i <= n,
                0 <= best_idx < i,
                best@ == entries@[best_idx]@,
                forall|j: int| 0 <= j < i ==> text::spec_lex_le(#[trigger] entries@[j]@, best@),
            decreases n - i,
        {
            let e = entries[i].clone();
            assert(e@ == entries@[i as int]@);
            if text::lex_le(best.as_str(), e.as_str()) {
                proof {
                    assert forall|j: int| 0 <= j <= i
                        implies text::spec_lex_le(#[trigger] entries@[j]@, e@) by {
                        if j < i {
                            lemma_lex_le_trans(entries@[j]@, best@, e@);
                        } else {
                            lemma_lex_le_refl(e@);
                        }
                    }
                    best_idx = i as int;
                }
                best = e;
            } else {
                proof {
                    text::lemma_lex_le_total(best@, e@);
                }
            }
            i += 1;
        }
        Some(best)
    }
}

/// Lexicographic order is reflexive.
proof fn lemma_lex_le_refl(a: Seq<char>)
    ensures
        text::spec_lex_le(a, a),
    decreases a.len(),
{
    if a.len() > 0 {
        lemma_lex_le_refl(a.subrange(1, a.len() as int));
    }
}

/// Lexicographic order is transitive.
proof fn lemma_lex_le_trans(a: Seq<char>, b: Seq<char>, c: Seq<char>)
    requires
        text::spec_lex_le(a, b),
        text::spec_lex_le(b, c),
    ensures
        text::spec_lex_le(a, c),
    decreases a.len(),
{
    if a.len() > 0 && b.len() > 0 && c.len() > 0 {
        if a[0] == b[0] && b[0] == c[0] {
            lemma_lex_le_trans(
                a.subrange(1, a.len() as int),
                b.subrange(1, b.len() as int),
                c.subrange(1, c.len() as int),
            );
        }
    }
}

/// A collection of CodeQL packs.
#[derive(Debug, Clone, Default)]
pub struct CodeQLPacks {
    /// The packs, in load order until sorted.
    pub packs: Vec<CodeQLPack>,
}

impl CodeQLPacks {
    /// Get the number of packs
    pub fn len(&self) -> (r: usize)
        ensures
            r == self.packs@.len(),
    {
        self.packs.len()
    }

    /// Get the packs
    pub fn packs(&self) -> (r: &Vec<CodeQLPack>)
        ensures
            r@ == self.packs@,
    {
        &self.packs
    }

    /// Merge two CodeQL pack collections: the other collection's packs are
    /// appended to this one and drained from the other.
    pub fn merge(&mut self, other: &mut Self)
        ensures
            final(self).packs@ == old(self).packs@ + old(other).packs@,
            final(other).packs@.len() == 0,
    {
        self.packs.append(&mut other.packs);
    }

    /// Sort the packs by type (Library, Queries, Models, Testing). The
    /// result holds the same packs, ordered by their type's rank.
    pub fn sort(&mut self)
        ensures
            final(self).packs@.len() == old(self).packs@.len(),
            final(self).packs@.to_multiset() == old(self).packs@.to_multiset(),
            forall|i: int, j: int| 0 <= i < j < final(self).packs@.len()
                ==> (#[trigger] final(self).packs@[i]).spec_type().spec_rank()
                    <= (#[trigger] final(self).packs@[j]).spec_type().spec_rank(),
    {
        broadcast use vstd::seq_lib::group_to_multiset_ensures;

        let ghost orig = self.packs@;
        let mut out: Vec<CodeQLPack> = Vec::new();
        proof {
            assert(out@.to_multiset().add(self.packs@.to_multiset()) =~= orig.to_multiset());
        }
        while self.packs.len() > 0
            invariant
                out@.to_multiset().add(self.packs@.to_multiset()) == orig.to_multiset(),
                out@.len() + self.packs@.len() == orig.len(),
                forall|i: int, j: int| 0 <= i < j < out@.len()
                    ==> (#[trigger] out@[i]).spec_type().spec_rank()
                        <= (#[trigger] out@[j]).spec_type().spec_rank(),
                forall|i: int, j: int|
                    0 <= i < out@.len() && 0 <= j < self.packs@.len()
                        ==> (#[trigger] out@[i]).spec_type().spec_rank()
                            <= (#[trigger] self.packs@[j]).spec_type().spec_rank(),
            decreases self.packs@.len(),
        {
            // select the first pack of minimal rank among the rest
            let n = self.packs.len();
            let mut m: usize = 0;
            let mut best = self.packs[0].pack_type_rank();
            let mut k: usize = 1;
            while k < n
                invariant
                    n == self.packs@.len(),
                    0 < n,
                    0 <= m < k <= n,
                    best as int == self.packs@[m as int].spec_type().spec_rank(),
                    forall|j: int| 0 <= j < k
                        ==> best as int
                            <= (#[trigger] self.packs@[j]).spec_type().spec_rank(),
                decreases n - k,
            {
                let r = self.packs[k].pack_type_rank();
                if r < best {
                    best = r;
                    m = k;
                }
                k += 1;
            }
            let ghost before = self.packs@;
            let ghost old_out = out@;
            let item = self.packs.remove(m);
            out.push(item);
            proof {
                broadcast use vstd::multiset::group_multiset_axioms;

                let x = before[m as int];
                assert(before.contains(x));
                assert(self.packs@ == before.remove(m as int));
                vstd::seq_lib::to_multiset_remove(before, m as int);
                vstd::seq_lib::to_multiset_contains(before, x);
                vstd::seq_lib::to_multiset_build(old_out, item);
                assert(out@ == old_out.push(item));
                assert(out@.to_multiset().add(self.packs@.to_multiset())
                    =~= orig.to_multiset());
            }
        }
        self.packs = out;
    }
}

impl CodeQLPack {
    /// The sort rank of the pack's effective type.
    fn pack_type_rank(&self) -> (r: u8)
        ensures
            r as int == self.spec_type().spec_rank(),
    {
        self.pack_type().rank()
    }
}

} // verus!
