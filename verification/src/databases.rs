//! A collection of CodeQL databases, and the default on-disk locations
//! databases and results live under.
//!
//! The defaults depend on the process environment; the lookups are done by
//! the surrounding application, which hands the values in as plain
//! optional strings.

use vstd::prelude::*;

use crate::database::CodeQLDatabase;
use crate::repository::Repository;
use crate::text;

verus! {

/// A list of CodeQL databases under a common root path.
#[derive(Debug, Clone, Default)]
pub struct CodeQLDatabases {
    /// The base path for the databases
    pub path: String,
    /// The list of databases
    pub databases: Vec<CodeQLDatabase>,
}

impl CodeQLDatabases {
    /// Create a new empty list of databases; the root path starts empty
    /// and is set by the surrounding application.
    pub fn new() -> (r: Self)
        ensures
            r.path@ == Seq::<char>::empty(),
            r.databases@.len() == 0,
    {
        CodeQLDatabases { path: String::new(), databases: Vec::new() }
    }

    /// Set the root path where the databases are stored
    pub fn set_path(&mut self, path: &str)
        ensures
            final(self).path@ == path@,
            final(self).databases == old(self).databases,
    {
        self.path = path.to_owned();
    }

    /// Get all of the loaded databases
    pub fn databases(&self) -> (r: &Vec<CodeQLDatabase>)
        ensures
            r@ == self.databases@,
    {
        &self.databases
    }

    /// Add a database to the list
    pub fn add(&mut self, database: CodeQLDatabase)
        ensures
            final(self).databases@ == old(self).databases@.push(database),
            final(self).path == old(self).path,
    {
        self.databases.push(database);
    }

    /// Check if the list is empty
    pub fn is_empty(&self) -> (r: bool)
        ensures
            r == (self.databases@.len() == 0),
    {
        self.databases.len() == 0
    }

    /// Get the number of databases in the list
    pub fn len(&self) -> (r: usize)
        ensures
            r == self.databases@.len(),
    {
        self.databases.len()
    }

    /// The directory a repository's database for one language is stored
    /// under: `<base>/<owner>/<repo>/<language>`.
    pub fn default_db_path(base: &str, repo: &Repository, language: &str) -> (r: String)
        ensures
            r@ == text::spec_path_join(
                text::spec_path_join(text::spec_path_join(base@, repo@.owner), repo@.name),
                language@,
            ),
    {
        let a = text::path_join(base, repo.owner.as_str());
        let b = text::path_join(a.as_str(), repo.name.as_str());
        text::path_join(b.as_str(), language)
    }

    /// The default root for CodeQL databases: the databases environment
    /// override when set, else `<home>/.codeql/databases`, else
    /// `/tmp/codeql`. The surrounding application reads the environment
    /// and hands the values in.
    pub fn default_path(env_databases: Option<&str>, home: Option<&str>) -> (r: String)
        ensures
            r@ == match env_databases {
                Some(p) => p@,
                None => match home {
                    Some(h) => text::spec_path_join(
                        text::spec_path_join(h@, ".codeql"@),
                        "databases"@,
                    ),
                    None => "/tmp/codeql"@,
                },
            },
    {
        match env_databases {
            Some(p) => p.to_owned(),
            None => match home {
                Some(h) => {
                    let a = text::path_join(h, ".codeql");
                    text::path_join(a.as_str(), "databases")
                }
                None => "/tmp/codeql".to_owned(),
            },
        }
    }

    /// The default root for CodeQL results: the results environment
    /// override when set, else `<home>/.codeql/results`, else
    /// `/tmp/codeql`.
    pub fn default_results(env_results: Option<&str>, home: Option<&str>) -> (r: String)
        ensures
            r@ == match env_results {
                Some(p) => p@,
                None => match home {
                    Some(h) => text::spec_path_join(
                        text::spec_path_join(h@, ".codeql"@),
                        "results"@,
                    ),
                    None => "/tmp/codeql"@,
                },
            },
    {
        match env_results {
            Some(p) => p.to_owned(),
            None => match home {
                Some(h) => {
                    let a = text::path_join(h, ".codeql");
                    text::path_join(a.as_str(), "results")
                }
                None => "/tmp/codeql".to_owned(),
            },
        }
    }
}

} // verus!
