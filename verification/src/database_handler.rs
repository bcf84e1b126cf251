//! Database lifecycle operations: deterministic construction of the
//! `codeql database create` and `codeql database analyze` argument vectors.
//!
//! Every precondition is checked before anything else would run: a missing
//! source root or language refuses `create` with the corresponding database
//! error and no argument vector is produced, so the surrounding application
//! never spawns a process for an invalid request. For a fixed handler the
//! argument vectors are pinned exactly, so repeated construction yields
//! identical vectors.

use vstd::prelude::*;

use crate::cli::CodeQL;
use crate::database::CodeQLDatabase;
use crate::errors::GHASError;
use crate::queries::{CodeQLQueries, spec_language_default, spec_parse, spec_render,
    spec_empty_queries, QueriesView};
use crate::text;

verus! {

/// CodeQL Database Handler
#[derive(Debug)]
pub struct CodeQLDatabaseHandler<'db, 'ql> {
    /// Reference to the CodeQL Database
    pub database: &'db CodeQLDatabase,
    /// Reference to the CodeQL instance
    pub codeql: &'ql CodeQL,
    /// Query / Pack / Suites
    pub queries: CodeQLQueries,
    /// Threat Models
    pub threat_models: Vec<String>,
    /// Model Packs
    pub model_packs: Vec<String>,
    /// SARIF Category
    pub category: Option<String>,
    /// Build command to create the database (for compiled languages)
    pub command: Option<String>,
    /// Output for Analysis
    pub output: String,
    /// Format for Analysis
    pub output_format: String,
    /// Overwrite the database if it exists
    pub overwrite: bool,
    /// Summary of the analysis
    pub summary: bool,
}

/// The results file name a database defaults to:
/// `<language>-<owner>-<repo>.sarif` with a repository attached, else
/// `<language>-<name>.sarif`.
pub open spec fn spec_results_file(db: &CodeQLDatabase) -> Seq<char> {
    match db.repository {
        Some(r) => db.language.spec_language() + seq!['-'] + r@.owner + seq!['-'] + r@.name
            + ".sarif"@,
        None => db.language.spec_language() + seq!['-'] + db.name@ + ".sarif"@,
    }
}

/// The named-suite shorthand: `security-extended`, `security-and-quality`,
/// `experimental` and `default`/`code-scanning` rewrite to the language's
/// default pack with the matching `codeql-suites/<language>-<suite>.qls`
/// path; any other token is parsed as a raw specifier.
pub open spec fn spec_suite_queries(lang: Seq<char>, token: Seq<char>) -> QueriesView {
    if token == "security-extended"@ {
        QueriesView {
            path: Some("codeql-suites/"@ + lang + "-security-extended.qls"@),
            ..spec_language_default(lang)
        }
    } else if token == "security-and-quality"@ {
        QueriesView {
            path: Some("codeql-suites/"@ + lang + "-security-and-quality.qls"@),
            ..spec_language_default(lang)
        }
    } else if token == "experimental"@ {
        QueriesView {
            path: Some("codeql-suites/"@ + lang + "-experimental.qls"@),
            ..spec_language_default(lang)
        }
    } else if token == "default"@ || token == "code-scanning"@ {
        QueriesView {
            path: Some("codeql-suites/"@ + lang + "-code-scanning.qls"@),
            ..spec_language_default(lang)
        }
    } else if token.len() > 0 {
        spec_parse(token)
    } else {
        spec_empty_queries()
    }
}

impl<'db, 'ql> CodeQLDatabaseHandler<'db, 'ql> {
    /// The leading arguments of `database create`, before the overwrite
    /// flag: subcommand, language, source root, and the optional
    /// threat-model, model-pack and search-path options.
    pub open spec fn spec_create_pre(&self) -> Seq<Seq<char>>
        recommends
            self.database.source is Some,
    {
        let base = seq!["database"@, "create"@, "-l"@, self.database.language.spec_language(),
            "-s"@, self.database.source.unwrap()@];
        let tms = text::spec_join(self.threat_models.deep_view(), ',');
        let tm: Seq<Seq<char>> = if tms.len() > 0 {
            seq!["--threat-models"@, tms]
        } else {
            Seq::empty()
        };
        let mps = text::spec_join(self.model_packs.deep_view(), ',');
        let mp: Seq<Seq<char>> = if mps.len() > 0 {
            seq!["--model-packs"@, mps]
        } else {
            Seq::empty()
        };
        let sps = self.codeql.spec_search_paths();
        let sp: Seq<Seq<char>> = if sps.len() > 0 {
            seq!["--search-path"@, sps]
        } else {
            Seq::empty()
        };
        base + tm + mp + sp
    }

    /// The trailing arguments of `database create`, after the overwrite
    /// flag: the summary flags, the optional SARIF category, and the
    /// database path.
    pub open spec fn spec_create_post(&self) -> Seq<Seq<char>> {
        let sm: Seq<Seq<char>> = if self.summary {
            seq!["--print-diagnostics-summary"@, "--print-metrics-summary"@]
        } else {
            Seq::empty()
        };
        let cat: Seq<Seq<char>> = match self.category {
            Some(c) => seq!["--sarif-category"@, c@],
            None => Seq::empty(),
        };
        sm + cat + seq![self.database.path@]
    }

    /// The full `database create` argument vector: the overwrite flag
    /// stands between [`Self::spec_create_pre`] and
    /// [`Self::spec_create_post`] exactly when overwriting was requested.
    pub open spec fn spec_create_cmd(&self) -> Seq<Seq<char>> {
        if self.overwrite {
            self.spec_create_pre() + seq!["--overwrite"@] + self.spec_create_post()
        } else {
            self.spec_create_pre() + self.spec_create_post()
        }
    }

    /// The full `database analyze` argument vector: output, format, the
    /// optional search path, the database path, and the rendered query
    /// specifier.
    pub open spec fn spec_analyze_cmd(&self) -> Seq<Seq<char>> {
        let base = seq!["database"@, "analyze"@, "--output"@, self.output@, "--format"@,
            self.output_format@];
        let sps = self.codeql.spec_search_paths();
        let sp: Seq<Seq<char>> = if sps.len() > 0 {
            seq!["--search-path"@, sps]
        } else {
            Seq::empty()
        };
        base + sp + seq![self.database.path@, spec_render(self.queries@)]
    }

    /// Create a new CodeQL Database Handler: the queries default to the
    /// database language's default pack, the output to the database's
    /// default results file name, and the format to SARIF.
    pub fn new(database: &'db CodeQLDatabase, codeql: &'ql CodeQL) -> (r: Self)
        ensures
            r.database == database,
            r.codeql == codeql,
            r.queries@ == spec_language_default(database.language.spec_language()),
            r.threat_models@.len() == 0,
            r.model_packs@.len() == 0,
            r.category is None,
            r.command is None,
            r.output@ == spec_results_file(database),
            r.output_format@ == "sarif-latest"@,
            !r.overwrite,
            r.summary,
    {
        proof {
            reveal_strlit("");
            assert(""@ =~= Seq::<char>::empty());
        }
        let lang = database.language();
        Self {
            database,
            codeql,
            queries: CodeQLQueries::language_default(lang.as_str()),
            threat_models: Vec::new(),
            model_packs: Vec::new(),
            category: None,
            command: None,
            output: Self::default_results(database, ""),
            output_format: "sarif-latest".to_owned(),
            overwrite: false,
            summary: true,
        }
    }

    /// The default results path of a database under `base`: the default
    /// results file name joined onto `base`. The surrounding application
    /// chooses the results root.
    pub fn default_results(database: &CodeQLDatabase, base: &str) -> (r: String)
        ensures
            r@ == text::spec_path_join(base@, spec_results_file(database)),
    {
        let lang = database.language();
        let mut file = lang;
        proof {
            reveal_strlit(".sarif");
        }
        match &database.repository {
            Some(repo) => {
                text::push_char(&mut file, '-');
                file.append(repo.owner.as_str());
                text::push_char(&mut file, '-');
                file.append(repo.name.as_str());
                file.append(".sarif");
                proof {
                    assert(file@ =~= spec_results_file(database));
                }
            }
            None => {
                text::push_char(&mut file, '-');
                file.append(database.name.as_str());
                file.append(".sarif");
                proof {
                    assert(file@ =~= spec_results_file(database));
                }
            }
        }
        text::path_join(base, file.as_str())
    }

    /// Set the build command to create the database (for compiled
    /// languages)
    pub fn command(self, command: String) -> (r: Self)
        ensures
            r.command matches Some(c) && c@ == command@,
            r.database == self.database && r.codeql == self.codeql
                && r.queries == self.queries && r.threat_models == self.threat_models
                && r.model_packs == self.model_packs && r.category == self.category
                && r.output == self.output && r.output_format == self.output_format
                && r.overwrite == self.overwrite && r.summary == self.summary,
    {
        CodeQLDatabaseHandler { command: Some(command), ..self }
    }

    /// Set the output for Analysis
    pub fn output(self, output: String) -> (r: Self)
        ensures
            r.output@ == output@,
            r.database == self.database && r.codeql == self.codeql
                && r.queries == self.queries && r.threat_models == self.threat_models
                && r.model_packs == self.model_packs && r.category == self.category
                && r.command == self.command && r.output_format == self.output_format
                && r.overwrite == self.overwrite && r.summary == self.summary,
    {
        CodeQLDatabaseHandler { output, ..self }
    }

    /// Set the CodeQL output path and format to `sarif` (JSON)
    pub fn sarif(self, output: &str) -> (r: Self)
        ensures
            r.output@ == output@,
            r.output_format@ == "sarif-latest"@,
            r.database == self.database && r.codeql == self.codeql
                && r.queries == self.queries && r.threat_models == self.threat_models
                && r.model_packs == self.model_packs && r.category == self.category
                && r.command == self.command && r.overwrite == self.overwrite
                && r.summary == self.summary,
    {
        CodeQLDatabaseHandler {
            output: output.to_owned(),
            output_format: "sarif-latest".to_owned(),
            ..self
        }
    }

    /// Set the CodeQL output path and format to `csv`
    pub fn csv(self, output: &str) -> (r: Self)
        ensures
            r.output@ == output@,
            r.output_format@ == "csv"@,
            r.database == self.database && r.codeql == self.codeql
                && r.queries == self.queries && r.threat_models == self.threat_models
                && r.model_packs == self.model_packs && r.category == self.category
                && r.command == self.command && r.overwrite == self.overwrite
                && r.summary == self.summary,
    {
        CodeQLDatabaseHandler {
            output: output.to_owned(),
            output_format: "csv".to_owned(),
            ..self
        }
    }

    /// Set the queries / packs / suites to use for the analysis from a
    /// specifier string.
    pub fn queries(self, queries: &str) -> (r: Self)
        ensures
            queries@.len() > 0 ==> r.queries@ == spec_parse(queries@),
            queries@.len() == 0 ==> r.queries@ == spec_empty_queries(),
            r.database == self.database && r.codeql == self.codeql
                && r.threat_models == self.threat_models
                && r.model_packs == self.model_packs && r.category == self.category
                && r.command == self.command && r.output == self.output
                && r.output_format == self.output_format && r.overwrite == self.overwrite
                && r.summary == self.summary,
    {
        CodeQLDatabaseHandler { queries: CodeQLQueries::parse_or_default(queries), ..self }
    }

    /// Set the query pack and suite to use for the analysis: the named
    /// suites are shorthands for the language's default pack suites, as
    /// [`spec_suite_queries`] describes.
    pub fn suite(self, queries: &str) -> (r: Self)
        ensures
            r.queries@ == spec_suite_queries(
                self.database.language.spec_language(),
                queries@,
            ),
            r.database == self.database && r.codeql == self.codeql
                && r.threat_models == self.threat_models
                && r.model_packs == self.model_packs && r.category == self.category
                && r.command == self.command && r.output == self.output
                && r.output_format == self.output_format && r.overwrite == self.overwrite
                && r.summary == self.summary,
    {
        proof {
            reveal_strlit("security-extended");
            reveal_strlit("security-and-quality");
            reveal_strlit("experimental");
            reveal_strlit("default");
            reveal_strlit("code-scanning");
            assert("security-extended"@.len() == 17 && "security-and-quality"@.len() == 20
                && "experimental"@.len() == 12 && "default"@.len() == 7
                && "code-scanning"@.len() == 13);
        }
        let lang = self.database.language();
        let q: CodeQLQueries = if text::str_eq(queries, "security-extended") {
            Self::suite_shorthand(lang.as_str(), "-security-extended.qls")
        } else if text::str_eq(queries, "security-and-quality") {
            Self::suite_shorthand(lang.as_str(), "-security-and-quality.qls")
        } else if text::str_eq(queries, "experimental") {
            Self::suite_shorthand(lang.as_str(), "-experimental.qls")
        } else if text::str_eq(queries, "default") || text::str_eq(queries, "code-scanning") {
            Self::suite_shorthand(lang.as_str(), "-code-scanning.qls")
        } else {
            CodeQLQueries::parse_or_default(queries)
        };
        CodeQLDatabaseHandler { queries: q, ..self }
    }

    /// The language's default pack with the suite path
    /// `codeql-suites/<language><suffix>`.
    fn suite_shorthand(lang: &str, suffix: &str) -> (r: CodeQLQueries)
        ensures
            r@ == (QueriesView {
                path: Some("codeql-suites/"@ + lang@ + suffix@),
                ..spec_language_default(lang@)
            }),
    {
        let mut q = CodeQLQueries::language_default(lang);
        let mut path = "codeql-suites/".to_owned();
        path.append(lang);
        path.append(suffix);
        proof {
            assert(path@ =~= "codeql-suites/"@ + lang@ + suffix@);
        }
        q.set_path(path.as_str());
        q
    }

    /// Set a Threat Model for the analysis
    pub fn threat_model(self, threat_model: &str) -> (r: Self)
        ensures
            r.threat_models.deep_view() == self.threat_models.deep_view()
                + seq![threat_model@],
            r.database == self.database && r.codeql == self.codeql
                && r.queries == self.queries && r.model_packs == self.model_packs
                && r.category == self.category && r.command == self.command
                && r.output == self.output && r.output_format == self.output_format
                && r.overwrite == self.overwrite && r.summary == self.summary,
    {
        let mut tms = self.threat_models;
        let ghost before = tms.deep_view();
        tms.push(threat_model.to_owned());
        proof {
            assert(tms.deep_view() =~= before + seq![threat_model@]);
        }
        CodeQLDatabaseHandler { threat_models: tms, ..self }
    }

    /// Set Threat Models for the analysis, replacing any existing ones
    pub fn threat_models(self, threat_models: Vec<String>) -> (r: Self)
        ensures
            r.threat_models.deep_view() == threat_models.deep_view(),
            r.database == self.database && r.codeql == self.codeql
                && r.queries == self.queries && r.model_packs == self.model_packs
                && r.category == self.category && r.command == self.command
                && r.output == self.output && r.output_format == self.output_format
                && r.overwrite == self.overwrite && r.summary == self.summary,
    {
        CodeQLDatabaseHandler { threat_models, ..self }
    }

    /// Disable the default threat model
    pub fn disable_default_threat_model(self) -> (r: Self)
        ensures
            r.threat_models.deep_view() == self.threat_models.deep_view() + seq!["!default"@],
            r.database == self.database && r.codeql == self.codeql
                && r.queries == self.queries && r.model_packs == self.model_packs
                && r.category == self.category && r.command == self.command
                && r.output == self.output && r.output_format == self.output_format
                && r.overwrite == self.overwrite && r.summary == self.summary,
    {
        self.threat_model("!default")
    }

    /// Add a Model Pack for the analysis
    pub fn model_pack(self, model_pack: &str) -> (r: Self)
        ensures
            r.model_packs.deep_view() == self.model_packs.deep_view() + seq![model_pack@],
            r.database == self.database && r.codeql == self.codeql
                && r.queries == self.queries && r.threat_models == self.threat_models
                && r.category == self.category && r.command == self.command
                && r.output == self.output && r.output_format == self.output_format
                && r.overwrite == self.overwrite && r.summary == self.summary,
    {
        let mut mps = self.model_packs;
        let ghost before = mps.deep_view();
        mps.push(model_pack.to_owned());
        proof {
            assert(mps.deep_view() =~= before + seq![model_pack@]);
        }
        CodeQLDatabaseHandler { model_packs: mps, ..self }
    }

    /// Set Model Packs for the analysis, replacing any existing ones
    pub fn model_packs(self, model_packs: Vec<String>) -> (r: Self)
        ensures
            r.model_packs.deep_view() == model_packs.deep_view(),
            r.database == self.database && r.codeql == self.codeql
                && r.queries == self.queries && r.threat_models == self.threat_models
                && r.category == self.category && r.command == self.command
                && r.output == self.output && r.output_format == self.output_format
                && r.overwrite == self.overwrite && r.summary == self.summary,
    {
        CodeQLDatabaseHandler { model_packs, ..self }
    }

    /// Set the SARIF category for the analysis
    pub fn category(self, category: &str) -> (r: Self)
        ensures
            r.category matches Some(c) && c@ == category@,
            r.database == self.database && r.codeql == self.codeql
                && r.queries == self.queries && r.threat_models == self.threat_models
                && r.model_packs == self.model_packs && r.command == self.command
                && r.output == self.output && r.output_format == self.output_format
                && r.overwrite == self.overwrite && r.summary == self.summary,
    {
        CodeQLDatabaseHandler { category: Some(category.to_owned()), ..self }
    }

    /// Overwrite the database if it exists
    pub fn overwrite(self) -> (r: Self)
        ensures
            r.overwrite,
            r.database == self.database && r.codeql == self.codeql
                && r.queries == self.queries && r.threat_models == self.threat_models
                && r.model_packs == self.model_packs && r.category == self.category
                && r.command == self.command && r.output == self.output
                && r.output_format == self.output_format && r.summary == self.summary,
    {
        CodeQLDatabaseHandler { overwrite: true, ..self }
    }

    /// Output the summary of the analysis
    pub fn summary(self, summary: bool) -> (r: Self)
        ensures
            r.summary == summary,
            r.database == self.database && r.codeql == self.codeql
                && r.queries == self.queries && r.threat_models == self.threat_models
                && r.model_packs == self.model_packs && r.category == self.category
                && r.command == self.command && r.output == self.output
                && r.output_format == self.output_format && r.overwrite == self.overwrite,
    {
        CodeQLDatabaseHandler { summary, ..self }
    }

    /// Construct the `database create` argument vector. The preconditions
    /// are checked before anything else would run: without a source root
    /// the create is refused with `No source root provided`, without a
    /// language with `No language provided`, and in both cases no argument
    /// vector exists for the application to spawn. On success the vector
    /// is exactly [`Self::spec_create_cmd`], so repeated construction
    /// yields identical vectors.
    #[verifier::rlimit(60)]
    pub fn create_cmd(&self) -> (r: Result<Vec<String>, GHASError>)
        ensures
            self.database.source is None ==> (r matches Err(e)
                && e matches GHASError::CodeQLDatabaseError(m)
                && m@ == "No source root provided"@),
            self.database.source is Some
                && self.database.language.spec_language().len() == 0 ==> (r matches Err(e)
                && e matches GHASError::CodeQLDatabaseError(m)
                && m@ == "No language provided"@),
            self.database.source is Some
                && self.database.language.spec_language().len() > 0 ==> (r matches Ok(args)
                && args.deep_view() == self.spec_create_cmd()),
    {
        let source: &String = match &self.database.source {
            Some(s) => s,
            None => {
                return Err(GHASError::CodeQLDatabaseError(
                    "No source root provided".to_owned(),
                ));
            }
        };
        let lang = self.database.language();
        if lang.as_str().unicode_len() == 0 {
            return Err(GHASError::CodeQLDatabaseError("No language provided".to_owned()));
        }
        let mut args: Vec<String> = Vec::new();
        args.push("database".to_owned());
        args.push("create".to_owned());
        args.push("-l".to_owned());
        args.push(lang);
        args.push("-s".to_owned());
        args.push(source.clone());
        proof {
            reveal_strlit(",");
            assert(args.deep_view() =~= seq!["database"@, "create"@, "-l"@,
                self.database.language.spec_language(), "-s"@,
                self.database.source.unwrap()@]);
        }
        let tms = text::join(&self.threat_models, ",");
        if tms.as_str().unicode_len() > 0 {
            args.push("--threat-models".to_owned());
            args.push(tms);
        }
        let mps = text::join(&self.model_packs, ",");
        if mps.as_str().unicode_len() > 0 {
            args.push("--model-packs".to_owned());
            args.push(mps);
        }
        let sps = self.codeql.search_paths();
        if sps.as_str().unicode_len() > 0 {
            args.push("--search-path".to_owned());
            args.push(sps);
        }
        proof {
            assert(args.deep_view() =~= self.spec_create_pre());
        }
        if self.overwrite {
            args.push("--overwrite".to_owned());
        }
        if self.summary {
            args.push("--print-diagnostics-summary".to_owned());
            args.push("--print-metrics-summary".to_owned());
        }
        if let Some(category) = &self.category {
            args.push("--sarif-category".to_owned());
            args.push(category.clone());
        }
        args.push(self.database.path.clone());
        proof {
            assert(args.deep_view() =~= self.spec_create_cmd());
        }
        Ok(args)
    }

    /// Construct the `database analyze` argument vector: exactly
    /// [`Self::spec_analyze_cmd`], so repeated construction yields
    /// identical vectors.
    pub fn analyze_cmd(&self) -> (r: Result<Vec<String>, GHASError>)
        ensures
            r matches Ok(args) && args.deep_view() == self.spec_analyze_cmd(),
    {
        let mut args: Vec<String> = Vec::new();
        args.push("database".to_owned());
        args.push("analyze".to_owned());
        args.push("--output".to_owned());
        args.push(self.output.clone());
        args.push("--format".to_owned());
        args.push(self.output_format.clone());
        let sps = self.codeql.search_paths();
        if sps.as_str().unicode_len() > 0 {
            args.push("--search-path".to_owned());
            args.push(sps);
        }
        args.push(self.database.path.clone());
        let rendered = self.queries.to_string();
        args.push(rendered);
        proof {
            assert(args.deep_view() =~= self.spec_analyze_cmd());
        }
        Ok(args)
    }
}

/// **Overwrite flag law.** The `database create` vector contains the
/// `--overwrite` flag element between its fixed prefix and suffix exactly
/// when overwriting was requested; the prefix and suffix themselves do not
/// depend on the request.
pub proof fn lemma_create_cmd_overwrite(h: CodeQLDatabaseHandler)
    ensures
        h.overwrite ==> h.spec_create_cmd() == h.spec_create_pre() + seq!["--overwrite"@]
            + h.spec_create_post(),
        !h.overwrite ==> h.spec_create_cmd() == h.spec_create_pre() + h.spec_create_post(),
{
}

impl CodeQL {
    /// Pass a CodeQLDatabase to the CodeQL CLI to return a
    /// CodeQLDatabaseHandler. This handler can be used to construct the
    /// create and analyze commands for the database.
    pub fn database<'a>(&'a self, db: &'a CodeQLDatabase) -> (r: CodeQLDatabaseHandler<'a, 'a>)
        ensures
            r.database == db,
            r.codeql == self,
            r.queries@ == spec_language_default(db.language.spec_language()),
            r.threat_models@.len() == 0,
            r.model_packs@.len() == 0,
            r.category is None,
            r.command is None,
            r.output@ == spec_results_file(db),
            r.output_format@ == "sarif-latest"@,
            !r.overwrite,
            r.summary,
    {
        CodeQLDatabaseHandler::new(db, self)
    }
}

} // verus!
