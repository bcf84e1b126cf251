//! CodeQL databases: the on-disk configuration record, the database value,
//! and its builder.
//!
//! A database descriptor carries a name, an on-disk path, a language, an
//! optional source root and repository, and — once `reload` has accepted a
//! decoded `codeql-database.yml` — a configuration snapshot. Version,
//! creation time and lines-of-code queries fall back to sentinel values
//! until a configuration is loaded. Reading and decoding the YAML file is
//! the surrounding application's job; the decisions about it are made here.

use vstd::prelude::*;

use crate::errors::GHASError;
use crate::languages::CodeQLLanguage;
use crate::repository::Repository;
use crate::text;

verus! {

/// CodeQL Database Configuration Metadata
#[derive(Debug, Clone, Default)]
pub struct CodeQLDatabaseConfigMetadata {
    /// Database SHA
    pub sha: Option<String>,
    /// Database CLI Version
    pub cli_version: String,
    /// Database Creation Time (RFC 3339 UTC timestamp, kept verbatim)
    pub creation_time: String,
}

/// CodeQL Database Configuration which is stored in the database directory
/// as `codeql-database.yml`.
#[derive(Debug, Clone, Default)]
pub struct CodeQLDatabaseConfig {
    /// Source Location Prefix
    pub source_location_prefix: Option<String>,
    /// Database primary language (e.g. cpp, java, python, etc.)
    pub primary_language: String,
    /// Database baseline lines of code
    pub baseline_lines_of_code: usize,
    /// Unicode Newlines
    pub unicode_newlines: bool,
    /// Database column kind
    pub column_kind: String,
    /// Database creation metadata
    pub creation_metadata: Option<CodeQLDatabaseConfigMetadata>,
    /// Build Mode
    pub build_mode: Option<String>,
    /// Finalized
    pub finalised: bool,
}

/// The mathematical content of a configuration metadata record.
pub ghost struct MetadataView {
    /// Database SHA.
    pub sha: Option<Seq<char>>,
    /// CLI version that created the database.
    pub cli_version: Seq<char>,
    /// Creation timestamp.
    pub creation_time: Seq<char>,
}

/// The mathematical content of a configuration record.
pub ghost struct ConfigView {
    /// Source location prefix.
    pub source_location_prefix: Option<Seq<char>>,
    /// Primary language id.
    pub primary_language: Seq<char>,
    /// Baseline lines of code.
    pub baseline_lines_of_code: int,
    /// Unicode newlines flag.
    pub unicode_newlines: bool,
    /// Column kind.
    pub column_kind: Seq<char>,
    /// Creation metadata.
    pub creation_metadata: Option<MetadataView>,
    /// Build mode.
    pub build_mode: Option<Seq<char>>,
    /// Finalized flag.
    pub finalised: bool,
}

impl View for CodeQLDatabaseConfigMetadata {
    type V = MetadataView;

    open spec fn view(&self) -> MetadataView {
        MetadataView {
            sha: match self.sha {
                Some(s) => Some(s@),
                None => None,
            },
            cli_version: self.cli_version@,
            creation_time: self.creation_time@,
        }
    }
}

impl View for CodeQLDatabaseConfig {
    type V = ConfigView;

    open spec fn view(&self) -> ConfigView {
        ConfigView {
            source_location_prefix: match self.source_location_prefix {
                Some(s) => Some(s@),
                None => None,
            },
            primary_language: self.primary_language@,
            baseline_lines_of_code: self.baseline_lines_of_code as int,
            unicode_newlines: self.unicode_newlines,
            column_kind: self.column_kind@,
            creation_metadata: match self.creation_metadata {
                Some(m) => Some(m@),
                None => None,
            },
            build_mode: match self.build_mode {
                Some(s) => Some(s@),
                None => None,
            },
            finalised: self.finalised,
        }
    }
}

impl CodeQLDatabaseConfig {
    /// A field-preserving copy.
    pub(crate) fn duplicate(&self) -> (r: Self)
        ensures
            r@ == self@,
    {
        CodeQLDatabaseConfig {
            source_location_prefix: match &self.source_location_prefix {
                Some(s) => Some(s.clone()),
                None => None,
            },
            primary_language: self.primary_language.clone(),
            baseline_lines_of_code: self.baseline_lines_of_code,
            unicode_newlines: self.unicode_newlines,
            column_kind: self.column_kind.clone(),
            creation_metadata: match &self.creation_metadata {
                Some(m) => Some(CodeQLDatabaseConfigMetadata {
                    sha: match &m.sha {
                        Some(s) => Some(s.clone()),
                        None => None,
                    },
                    cli_version: m.cli_version.clone(),
                    creation_time: m.creation_time.clone(),
                }),
                None => None,
            },
            build_mode: match &self.build_mode {
                Some(s) => Some(s.clone()),
                None => None,
            },
            finalised: self.finalised,
        }
    }
}

/// CodeQL Database
#[derive(Debug, Clone, Default)]
pub struct CodeQLDatabase {
    /// The name of the database
    pub name: String,
    /// The path to the database
    pub path: String,
    /// The language of the database
    pub language: CodeQLLanguage,
    /// The source root of the database
    pub source: Option<String>,
    /// Repository the database is associated with
    pub repository: Option<Repository>,
    /// Configuration, present once `reload` has accepted one
    pub config: Option<CodeQLDatabaseConfig>,
}

impl CodeQLDatabase {
    /// The effective database name: the stored name when one is set, else
    /// the attached repository's name, else the source directory's file
    /// name, else empty.
    pub open spec fn spec_name(&self) -> Seq<char> {
        if self.name@.len() > 0 {
            self.name@
        } else {
            match self.repository {
                Some(r) => r@.name,
                None => match self.source {
                    Some(s) => text::spec_last_component(s@),
                    None => self.name@,
                },
            }
        }
    }

    /// Create a new empty CodeQLDatabase
    pub fn new() -> (r: Self)
        ensures
            r.name@ == Seq::<char>::empty(),
            r.path@ == Seq::<char>::empty(),
            r.language.spec_name() == Seq::<char>::empty(),
            r.source is None,
            r.repository is None,
            r.config is None,
    {
        proof {
            reveal_strlit("");
            assert(""@ =~= Seq::<char>::empty());
        }
        CodeQLDatabase {
            name: String::new(),
            path: String::new(),
            language: CodeQLLanguage::from_token(""),
            source: None,
            repository: None,
            config: None,
        }
    }

    /// Initialize a new CodeQLDatabaseBuilder
    pub fn init() -> (r: CodeQLDatabaseBuilder)
        ensures
            r.name@ == Seq::<char>::empty(),
            r.path is None,
            r.language.spec_name() == Seq::<char>::empty(),
            r.language.spec_extractor().spec_is_default(),
            r.source is None,
            r.repository is None,
            r.config is None,
    {
        proof {
            reveal_strlit("");
            assert(""@ =~= Seq::<char>::empty());
        }
        CodeQLDatabaseBuilder {
            name: String::new(),
            path: None,
            language: CodeQLLanguage::from_token(""),
            source: None,
            repository: None,
            config: None,
        }
    }

    /// Get the database name
    pub fn name(&self) -> (r: String)
        ensures
            r@ == self.spec_name(),
    {
        if self.name.as_str().unicode_len() > 0 {
            return self.name.clone();
        }
        if let Some(repo) = &self.repository {
            return repo.name.clone();
        }
        if let Some(source) = &self.source {
            return text::last_component(source.as_str());
        }
        self.name.clone()
    }

    /// Get the database language id
    pub fn language(&self) -> (r: String)
        ensures
            r@ == self.language.spec_language(),
    {
        self.language.language()
    }

    /// Get the repository the database is associated with
    pub fn repository(&self) -> (r: Option<&Repository>)
        ensures
            match r {
                Some(repo) => self.repository matches Some(sr) && repo@ == sr@,
                None => self.repository is None,
            },
    {
        match &self.repository {
            Some(r) => Some(r),
            None => None,
        }
    }

    /// Set the repository the database is associated with; the database
    /// takes the repository's name.
    pub fn set_repository(&mut self, repository: &Repository)
        ensures
            final(self).repository matches Some(r) && r@ == repository@,
            final(self).name@ == repository@.name,
            final(self).path == old(self).path,
            final(self).language == old(self).language,
            final(self).source == old(self).source,
            final(self).config == old(self).config,
    {
        self.repository = Some(repository.duplicate());
        self.name = repository.name().to_owned();
    }

    /// Get the database path (root directory)
    pub fn path(&self) -> (r: &String)
        ensures
            r@ == self.path@,
    {
        &self.path
    }

    /// Get the path to the CodeQL Database configuration file:
    /// `<path>/codeql-database.yml`.
    pub fn configuration_path(&self) -> (r: String)
        ensures
            r@ == text::spec_path_join(self.path@, "codeql-database.yml"@),
    {
        text::path_join(self.path.as_str(), "codeql-database.yml")
    }

    /// Creation time of the database, from the loaded configuration.
    pub fn created_at(&self) -> (r: Option<String>)
        ensures
            match r {
                Some(t) => self.config matches Some(c) && c.creation_metadata matches Some(m)
                    && t@ == m.creation_time@,
                None => match self.config {
                    Some(c) => c.creation_metadata is None,
                    None => true,
                },
            },
    {
        if let Some(config) = &self.config {
            if let Some(metadata) = &config.creation_metadata {
                return Some(metadata.creation_time.clone());
            }
        }
        None
    }

    /// Get the creation time of the database
    pub fn creation_time(&self) -> (r: Option<String>)
        ensures
            match r {
                Some(t) => self.config matches Some(c) && c.creation_metadata matches Some(m)
                    && t@ == m.creation_time@,
                None => match self.config {
                    Some(c) => c.creation_metadata is None,
                    None => true,
                },
            },
    {
        self.created_at()
    }

    /// Get the version of the CodeQL CLI used to create the database;
    /// `0.0.0` until a configuration with creation metadata is loaded.
    pub fn version(&self) -> (r: String)
        ensures
            r@ == match self.config {
                Some(c) => match c.creation_metadata {
                    Some(m) => m.cli_version@,
                    None => "0.0.0"@,
                },
                None => "0.0.0"@,
            },
    {
        if let Some(config) = &self.config {
            if let Some(metadata) = &config.creation_metadata {
                return metadata.cli_version.clone();
            }
        }
        "0.0.0".to_owned()
    }

    /// Get the number of lines of code in the database; 0 until a
    /// configuration is loaded.
    pub fn lines_of_code(&self) -> (r: usize)
        ensures
            r as int == match self.config {
                Some(c) => c@.baseline_lines_of_code,
                None => 0,
            },
    {
        if let Some(config) = &self.config {
            return config.baseline_lines_of_code;
        }
        0
    }

    /// Reload the database configuration from the outcome of reading
    /// `codeql-database.yml`. The surrounding application reads and
    /// decodes the file and hands the outcome in: `None` when the file is
    /// absent, `Err` with the decode failure text when it is malformed. A
    /// decoded configuration replaces the loaded one wholesale; an absent
    /// file means the database is invalid, a malformed one is a format
    /// error wrapping the failure, and in both error cases the loaded
    /// configuration — still `None` before the first successful reload —
    /// is left untouched.
    pub fn reload(&mut self, found: Option<Result<CodeQLDatabaseConfig, String>>) -> (r: Result<
        (),
        GHASError,
    >)
        ensures
            match found {
                Some(Ok(c)) => r is Ok && final(self).config == Some(c),
                Some(Err(m)) => final(self).config == old(self).config && (r matches Err(e)
                    && e matches GHASError::FormatError(em) && em@ == m@),
                None => final(self).config == old(self).config && (r matches Err(e)
                    && e matches GHASError::CodeQLDatabaseError(em)
                    && em@ == "Invalid CodeQL Database"@),
            },
            final(self).name == old(self).name,
            final(self).path == old(self).path,
            final(self).language == old(self).language,
            final(self).source == old(self).source,
            final(self).repository == old(self).repository,
    {
        match found {
            Some(Ok(config)) => {
                self.config = Some(config);
                Ok(())
            }
            Some(Err(m)) => Err(GHASError::FormatError(m)),
            None => Err(GHASError::CodeQLDatabaseError("Invalid CodeQL Database".to_owned())),
        }
    }

    /// A field-preserving copy. The language's and configuration's
    /// contents are carried over as their views describe.
    pub fn duplicate(&self) -> (r: Self)
        ensures
            r.name@ == self.name@,
            r.path@ == self.path@,
            r.language.spec_key() == self.language.spec_key(),
            match r.source {
                Some(s) => self.source matches Some(o) && s@ == o@,
                None => self.source is None,
            },
            match r.repository {
                Some(rr) => self.repository matches Some(o) && rr@ == o@,
                None => self.repository is None,
            },
            match r.config {
                Some(c) => self.config matches Some(o) && c@ == o@,
                None => self.config is None,
            },
    {
        CodeQLDatabase {
            name: self.name.clone(),
            path: self.path.clone(),
            language: self.language.duplicate(),
            source: match &self.source {
                Some(s) => Some(s.clone()),
                None => None,
            },
            repository: match &self.repository {
                Some(r) => Some(r.duplicate()),
                None => None,
            },
            config: match &self.config {
                Some(c) => Some(c.duplicate()),
                None => None,
            },
        }
    }
}

/// CodeQL Database Builder used for creating new CodeQLDatabase values.
#[derive(Debug, Clone, Default)]
pub struct CodeQLDatabaseBuilder {
    /// Explicit database name, empty when none was chosen
    pub name: String,
    /// Explicit database path, when one was chosen
    pub path: Option<String>,
    /// The database language
    pub language: CodeQLLanguage,
    /// The source root
    pub source: Option<String>,
    /// The attached repository
    pub repository: Option<Repository>,
    /// A configuration carried into the database
    pub config: Option<CodeQLDatabaseConfig>,
}

impl CodeQLDatabaseBuilder {
    /// **Name derivation priority.** The name a built database receives:
    /// the explicit name wins, then the repository's name, then the last
    /// component of an explicitly chosen path, then the source directory's
    /// file name; a builder with none of these yields the last component
    /// of the derived default path.
    pub open spec fn spec_derived_name(&self, default_path: Seq<char>) -> Seq<char> {
        if self.name@.len() > 0 {
            self.name@
        } else if self.repository is Some {
            self.repository.unwrap()@.name
        } else if self.path is Some {
            text::spec_last_component(self.path.unwrap()@)
        } else if self.source is Some {
            text::spec_last_component(self.source.unwrap()@)
        } else {
            text::spec_last_component(default_path)
        }
    }

    /// The database path a builder without an explicit path derives, under
    /// `base`: `<base>/<owner>/<repo>/<language>` with a repository,
    /// `<base>/<language>-<name>` for a primary language without one, and
    /// `<base>/<name>` for a secondary language.
    pub open spec fn spec_default_path(&self, base: Seq<char>) -> Seq<char> {
        match self.repository {
            Some(r) => text::spec_path_join(
                text::spec_path_join(text::spec_path_join(base, r@.owner), r@.name),
                self.language.spec_language(),
            ),
            None => if !self.language.spec_is_secondary() {
                text::spec_path_join(
                    base,
                    self.language.spec_language() + seq!['-'] + self.name@,
                )
            } else {
                text::spec_path_join(base, self.name@)
            },
        }
    }

    /// Set the name of the database
    pub fn name(self, name: &str) -> (r: Self)
        ensures
            r.name@ == name@,
            r.path == self.path,
            r.language == self.language,
            r.source == self.source,
            r.repository == self.repository,
            r.config == self.config,
    {
        CodeQLDatabaseBuilder { name: name.to_owned(), ..self }
    }

    /// Set the path to the database. Loading an existing database's
    /// configuration from that path is the surrounding application's job.
    pub fn path(self, path: &str) -> (r: Self)
        ensures
            r.path matches Some(p) && p@ == path@,
            r.name == self.name,
            r.language == self.language,
            r.source == self.source,
            r.repository == self.repository,
            r.config == self.config,
    {
        CodeQLDatabaseBuilder { path: Some(path.to_owned()), ..self }
    }

    /// Set the source root for database creation / mapping
    pub fn source(self, source: &str) -> (r: Self)
        ensures
            r.source matches Some(s) && s@ == source@,
            r.name == self.name,
            r.path == self.path,
            r.language == self.language,
            r.repository == self.repository,
            r.config == self.config,
    {
        CodeQLDatabaseBuilder { source: Some(source.to_owned()), ..self }
    }

    /// Set the language of the database from a language token
    pub fn language(self, language: &str) -> (r: Self)
        ensures
            r.language.spec_name() == language@,
            r.language.spec_extractor().spec_is_default(),
            r.name == self.name,
            r.path == self.path,
            r.source == self.source,
            r.repository == self.repository,
            r.config == self.config,
    {
        CodeQLDatabaseBuilder { language: CodeQLLanguage::from_token(language), ..self }
    }

    /// Set the repository the database is associated with; the builder
    /// takes the repository's name.
    pub fn repository(self, repository: &Repository) -> (r: Self)
        ensures
            r.repository matches Some(rr) && rr@ == repository@,
            r.name@ == repository@.name,
            r.path == self.path,
            r.language == self.language,
            r.source == self.source,
            r.config == self.config,
    {
        CodeQLDatabaseBuilder {
            name: repository.name().to_owned(),
            repository: Some(repository.duplicate()),
            ..self
        }
    }

    /// Set the configuration for the database; the builder takes the
    /// configuration's primary language.
    pub fn config(self, config: CodeQLDatabaseConfig) -> (r: Self)
        ensures
            r.config matches Some(c) && c@ == config@,
            r.language.spec_name() == config.primary_language@,
            r.language.spec_extractor().spec_is_default(),
            r.name == self.name,
            r.path == self.path,
            r.source == self.source,
            r.repository == self.repository,
    {
        let language = CodeQLLanguage::from_token(config.primary_language.as_str());
        CodeQLDatabaseBuilder { language, config: Some(config), ..self }
    }

    /// The default path for the database under `base`, as
    /// [`Self::spec_default_path`] describes.
    pub fn default_path(&self, base: &str) -> (r: String)
        ensures
            r@ == self.spec_default_path(base@),
    {
        match &self.repository {
            Some(repo) => {
                let a = text::path_join(base, repo.owner.as_str());
                let b = text::path_join(a.as_str(), repo.name.as_str());
                let lang = self.language.language();
                text::path_join(b.as_str(), lang.as_str())
            }
            None => {
                if !self.language.is_secondary() {
                    let mut leaf = self.language.language();
                    crate::text::push_char(&mut leaf, '-');
                    leaf.append(self.name.as_str());
                    proof {
                        assert(leaf@ =~= self.language.spec_language() + seq!['-']
                            + self.name@);
                    }
                    text::path_join(base, leaf.as_str())
                } else {
                    text::path_join(base, self.name.as_str())
                }
            }
        }
    }

    /// Build the CodeQLDatabase from the builder. The path is the explicit
    /// one, or the default derived with an empty base (the surrounding
    /// application chooses the databases root); the name follows the
    /// derivation priority of [`Self::spec_derived_name`].
    pub fn build(&self) -> (r: Result<CodeQLDatabase, GHASError>)
        ensures
            r matches Ok(db) && {
                &&& db.path@ == match self.path {
                    Some(p) => p@,
                    None => self.spec_default_path(Seq::<char>::empty()),
                }
                &&& db.name@ == self.spec_derived_name(
                    self.spec_default_path(Seq::<char>::empty()),
                )
                &&& db.language.spec_key() == self.language.spec_key()
                &&& match db.source {
                    Some(s) => self.source matches Some(o) && s@ == o@,
                    None => self.source is None,
                }
                &&& match db.repository {
                    Some(rr) => self.repository matches Some(o) && rr@ == o@,
                    None => self.repository is None,
                }
                &&& match db.config {
                    Some(c) => self.config matches Some(o) && c@ == o@,
                    None => self.config is None,
                }
            },
    {
        proof {
            reveal_strlit("");
            assert(""@ =~= Seq::<char>::empty());
        }
        let default_path = self.default_path("");
        let path: String = match &self.path {
            Some(p) => p.clone(),
            None => default_path.clone(),
        };
        let name: String = if self.name.as_str().unicode_len() > 0 {
            self.name.clone()
        } else if let Some(repo) = &self.repository {
            repo.name.clone()
        } else if let Some(p) = &self.path {
            text::last_component(p.as_str())
        } else if let Some(source) = &self.source {
            text::last_component(source.as_str())
        } else {
            text::last_component(default_path.as_str())
        };
        Ok(CodeQLDatabase {
            name,
            path,
            language: self.language.duplicate(),
            source: match &self.source {
                Some(s) => Some(s.clone()),
                None => None,
            },
            repository: match &self.repository {
                Some(r) => Some(r.duplicate()),
                None => None,
            },
            config: match &self.config {
                Some(c) => Some(c.duplicate()),
                None => None,
            },
        })
    }
}

} // verus!
