//! The language registry.
//!
//! Maps language tokens (including aliases such as `kotlin` or `typescript`)
//! to canonical CodeQL language ids and display names, and distinguishes
//! secondary (non-code) languages. Unknown tokens are kept verbatim rather
//! than rejected, so newer CodeQL languages keep working.

use vstd::prelude::*;

use crate::extractors::CodeQLExtractor;
use crate::text;

verus! {

/// Display name of a known language token, if the token is in the fixed
/// table; tokens that share a display name are aliases of one another.
pub open spec fn spec_pretty_name(name: Seq<char>) -> Option<Seq<char>> {
    if name == "actions"@ {
        Some("GitHub Actions"@)
    } else if name == "c"@ || name == "cpp"@ || name == "c-cpp"@ {
        Some("C/C++"@)
    } else if name == "csharp"@ {
        Some("C#"@)
    } else if name == "java"@ || name == "kotlin"@ || name == "java-kotlin"@ {
        Some("Java/Kotlin"@)
    } else if name == "javascript"@ || name == "typescript"@
        || name == "javascript-typescript"@ {
        Some("Javascript/Typescript"@)
    } else if name == "python"@ {
        Some("Python"@)
    } else if name == "go"@ {
        Some("Go"@)
    } else if name == "rust"@ {
        Some("Rust"@)
    } else if name == "ruby"@ {
        Some("Rudy"@)
    } else if name == "swift"@ {
        Some("Swift"@)
    } else {
        None
    }
}

/// Is `name` a known language token (an alias included)?
pub open spec fn spec_known_token(name: Seq<char>) -> bool {
    spec_pretty_name(name) is Some
}

/// Display name of a known language token.
fn pretty_name(name: &str) -> (r: Option<String>)
    ensures
        match r {
            Some(p) => spec_pretty_name(name@) == Some(p@),
            None => spec_pretty_name(name@) is None,
        },
{
    if text::str_eq(name, "actions") {
        Some("GitHub Actions".to_owned())
    } else if text::str_eq(name, "c") || text::str_eq(name, "cpp")
        || text::str_eq(name, "c-cpp") {
        Some("C/C++".to_owned())
    } else if text::str_eq(name, "csharp") {
        Some("C#".to_owned())
    } else if text::str_eq(name, "java") || text::str_eq(name, "kotlin")
        || text::str_eq(name, "java-kotlin") {
        Some("Java/Kotlin".to_owned())
    } else if text::str_eq(name, "javascript") || text::str_eq(name, "typescript")
        || text::str_eq(name, "javascript-typescript") {
        Some("Javascript/Typescript".to_owned())
    } else if text::str_eq(name, "python") {
        Some("Python".to_owned())
    } else if text::str_eq(name, "go") {
        Some("Go".to_owned())
    } else if text::str_eq(name, "rust") {
        Some("Rust".to_owned())
    } else if text::str_eq(name, "ruby") {
        Some("Rudy".to_owned())
    } else if text::str_eq(name, "swift") {
        Some("Swift".to_owned())
    } else {
        None
    }
}

/// Is `name` a known language token? Used by the specifier parser to treat
/// a bare language token as sugar for its default query pack.
pub fn known_token(name: &str) -> (r: bool)
    ensures
        r == spec_known_token(name@),
{
    match pretty_name(name) {
        Some(_) => true,
        None => false,
    }
}

/// A language CodeQL can track, with the extractor it was resolved from.
#[derive(Debug, Clone)]
pub struct CodeQLLanguage {
    /// The token the language was constructed from.
    pub name: String,
    /// The extractor the language was resolved from, default when none.
    pub extractor: CodeQLExtractor,
}

impl CodeQLLanguage {
    /// The token the language was constructed from.
    pub open spec fn spec_name(&self) -> Seq<char> {
        self.name@
    }

    /// The extractor attached to the language.
    pub open spec fn spec_extractor(&self) -> CodeQLExtractor {
        self.extractor
    }

    /// The id handed to the CodeQL CLI: the extractor's name when one is
    /// attached, the construction token otherwise.
    pub open spec fn spec_language(&self) -> Seq<char> {
        if self.extractor.name@.len() > 0 {
            self.extractor.name@
        } else {
            self.name@
        }
    }

    /// Tokens of languages CodeQL tracks but does not scan as code.
    pub open spec fn spec_secondary_token(name: Seq<char>) -> bool {
        name == "properties"@ || name == "csv"@ || name == "yaml"@ || name == "xml"@
            || name == "html"@
    }

    /// A language is secondary when its effective id is a non-code language.
    pub open spec fn spec_is_secondary(&self) -> bool {
        CodeQLLanguage::spec_secondary_token(self.spec_language())
    }

    /// The pair that determines a language's behavior: its construction
    /// token and its extractor's name.
    pub open spec fn spec_key(&self) -> (Seq<char>, Seq<char>) {
        (self.name@, self.extractor.name@)
    }

    /// The language's model: its key together with the extractor's
    /// supported languages.
    pub open spec fn spec_model(&self) -> LanguageModel {
        LanguageModel {
            name: self.name@,
            extractor_name: self.extractor.name@,
            extractor_languages: self.spec_extractor().spec_languages(),
        }
    }

    /// A field-preserving copy, with the key and the extractor's supported
    /// languages carried over.
    pub(crate) fn duplicate(&self) -> (r: Self)
        ensures
            r.spec_key() == self.spec_key(),
            r.spec_extractor().spec_languages() == self.spec_extractor().spec_languages(),
            r.spec_model() == self.spec_model(),
    {
        CodeQLLanguage {
            name: self.name.clone(),
            extractor: self.extractor.duplicate(),
        }
    }

    /// The display name: the fixed table entry for the token when known,
    /// else the extractor name, else the token itself.
    pub open spec fn spec_pretty(&self) -> Seq<char> {
        match spec_pretty_name(self.name@) {
            Some(p) => p,
            None => {
                if self.extractor.name@.len() > 0 {
                    self.extractor.name@
                } else {
                    self.name@
                }
            }
        }
    }

    /// Construct a language from a bare token, with no extractor attached.
    pub fn from_token(name: &str) -> (r: Self)
        ensures
            r.spec_name() == name@,
            r.spec_extractor().spec_is_default(),
    {
        CodeQLLanguage { name: name.to_owned(), extractor: CodeQLExtractor::default() }
    }

    /// Construct a language from a token and the extractor resolved for it.
    pub fn from_parts(name: String, extractor: CodeQLExtractor) -> (r: Self)
        ensures
            r.spec_name() == name@,
            r.spec_extractor() == extractor,
    {
        CodeQLLanguage { name, extractor }
    }

    /// Get the pretty name of the language
    pub fn pretty(&self) -> (r: String)
        ensures
            r@ == self.spec_pretty(),
    {
        match pretty_name(self.name.as_str()) {
            Some(p) => p,
            None => {
                if self.extractor.name.as_str().unicode_len() > 0 {
                    self.extractor.name.clone()
                } else {
                    self.name.clone()
                }
            }
        }
    }

    /// Get the language id for the CodeQL CLI (aliases are supported)
    pub fn language(&self) -> (r: String)
        ensures
            r@ == self.spec_language(),
    {
        if self.extractor.name.as_str().unicode_len() > 0 {
            self.extractor.name.clone()
        } else {
            self.name.clone()
        }
    }

    /// Check if the language is a secondary language
    pub fn is_secondary(&self) -> (r: bool)
        ensures
            r == self.spec_is_secondary(),
    {
        let lang = self.language();
        let l = lang.as_str();
        text::str_eq(l, "properties") || text::str_eq(l, "csv") || text::str_eq(l, "yaml")
            || text::str_eq(l, "xml") || text::str_eq(l, "html")
    }
}

impl From<String> for CodeQLLanguage {
    /// A language with the given token and no extractor.
    fn from(value: String) -> (r: Self)
        ensures
            r.spec_name() == value@,
            r.spec_extractor().spec_is_default(),
    {
        CodeQLLanguage { name: value, extractor: CodeQLExtractor::default() }
    }
}

impl vstd::std_specs::convert::FromSpecImpl<String> for CodeQLLanguage {
    open spec fn obeys_from_spec() -> bool {
        false
    }

    open spec fn from_spec(v: String) -> Self {
        arbitrary()
    }
}

impl From<&str> for CodeQLLanguage {
    /// A language with the given token and no extractor.
    fn from(value: &str) -> (r: Self)
        ensures
            r.spec_name() == value@,
            r.spec_extractor().spec_is_default(),
    {
        CodeQLLanguage::from_token(value)
    }
}

impl vstd::std_specs::convert::FromSpecImpl<&str> for CodeQLLanguage {
    open spec fn obeys_from_spec() -> bool {
        false
    }

    open spec fn from_spec(v: &str) -> Self {
        arbitrary()
    }
}

impl Default for CodeQLLanguage {
    /// A language with an empty token and no extractor.
    fn default() -> (r: Self)
        ensures
            r.spec_name() == Seq::<char>::empty(),
            r.spec_extractor().spec_is_default(),
    {
        CodeQLLanguage { name: String::new(), extractor: CodeQLExtractor::default() }
    }
}

/// The canonical id for `token`: the token is lower-cased and sent through
/// the fixed alias table; unknown tokens are echoed verbatim.
pub open spec fn spec_canonical_id(token: Seq<char>) -> Seq<char> {
    let low = text::spec_lower(token);
    if low == "c"@ || low == "c++"@ || low == "c-cpp"@ || low == "cpp"@ {
        "cpp"@
    } else if low == "kotlin"@ || low == "java-kotlin"@ || low == "java"@ {
        "java"@
    } else if low == "typescript"@ || low == "javascript-typescript"@
        || low == "javascript"@ {
        "javascript"@
    } else if low == "golang"@ || low == "go"@ {
        "go"@
    } else if low == "actions"@ {
        "actions"@
    } else if low == "csharp"@ {
        "csharp"@
    } else if low == "python"@ {
        "python"@
    } else if low == "rust"@ {
        "rust"@
    } else if low == "ruby"@ {
        "ruby"@
    } else if low == "swift"@ {
        "swift"@
    } else if low == "properties"@ {
        "properties"@
    } else if low == "csv"@ {
        "csv"@
    } else if low == "yaml"@ {
        "yaml"@
    } else if low == "xml"@ {
        "xml"@
    } else if low == "html"@ {
        "html"@
    } else {
        token
    }
}

/// Map a language token, an alias or an unknown token to a language whose
/// name is its canonical id. This operation is total: unknown tokens become
/// a custom language echoing the token, never an error.
pub fn canonicalize(token: &str) -> (r: CodeQLLanguage)
    ensures
        r.spec_name() == spec_canonical_id(token@),
        r.spec_extractor().spec_is_default(),
{
    let lows = text::to_lowercase(token);
    let low = lows.as_str();
    let id: String = if text::str_eq(low, "c") || text::str_eq(low, "c++")
        || text::str_eq(low, "c-cpp") || text::str_eq(low, "cpp") {
        "cpp".to_owned()
    } else if text::str_eq(low, "kotlin") || text::str_eq(low, "java-kotlin")
        || text::str_eq(low, "java") {
        "java".to_owned()
    } else if text::str_eq(low, "typescript") || text::str_eq(low, "javascript-typescript")
        || text::str_eq(low, "javascript") {
        "javascript".to_owned()
    } else if text::str_eq(low, "golang") || text::str_eq(low, "go") {
        "go".to_owned()
    } else if text::str_eq(low, "actions") {
        "actions".to_owned()
    } else if text::str_eq(low, "csharp") {
        "csharp".to_owned()
    } else if text::str_eq(low, "python") {
        "python".to_owned()
    } else if text::str_eq(low, "rust") {
        "rust".to_owned()
    } else if text::str_eq(low, "ruby") {
        "ruby".to_owned()
    } else if text::str_eq(low, "swift") {
        "swift".to_owned()
    } else if text::str_eq(low, "properties") {
        "properties".to_owned()
    } else if text::str_eq(low, "csv") {
        "csv".to_owned()
    } else if text::str_eq(low, "yaml") {
        "yaml".to_owned()
    } else if text::str_eq(low, "xml") {
        "xml".to_owned()
    } else if text::str_eq(low, "html") {
        "html".to_owned()
    } else {
        token.to_owned()
    };
    CodeQLLanguage { name: id, extractor: CodeQLExtractor::default() }
}

/// A sequence is lower-case-fixed when no character is an ASCII capital.
proof fn lemma_lower_fixed(s: Seq<char>)
    requires
        forall|i: int| 0 <= i < s.len() ==> !('A' <= #[trigger] s[i] <= 'Z'),
    ensures
        text::spec_lower(s) =~= s,
{
    assert forall|i: int| 0 <= i < s.len()
        implies text::spec_lower(s)[i] == s[i] by {
        assert(!('A' <= s[i] <= 'Z'));
    }
}

/// Canonical ids are fixed points of canonicalization: sending a canonical
/// id back through the registry yields the same id. Together with the
/// echoing of unknown tokens this makes canonicalization idempotent.
pub proof fn lemma_canonicalize_idempotent(token: Seq<char>)
    ensures
        spec_canonical_id(spec_canonical_id(token)) == spec_canonical_id(token),
{
    let r = spec_canonical_id(token);
    let low = text::spec_lower(token);
    lemma_canonical_literals_fixed();
    if r == token {
        // the echo case: the second pass takes the same branch
        assert(spec_canonical_id(r) == r);
    }
}

/// Each canonical id literal is all lower-case, so lower-casing leaves it
/// unchanged and a second canonicalization maps it to itself.
proof fn lemma_canonical_literals_fixed()
    ensures
        spec_canonical_id("cpp"@) == "cpp"@,
        spec_canonical_id("java"@) == "java"@,
        spec_canonical_id("javascript"@) == "javascript"@,
        spec_canonical_id("go"@) == "go"@,
        spec_canonical_id("actions"@) == "actions"@,
        spec_canonical_id("csharp"@) == "csharp"@,
        spec_canonical_id("python"@) == "python"@,
        spec_canonical_id("rust"@) == "rust"@,
        spec_canonical_id("ruby"@) == "ruby"@,
        spec_canonical_id("swift"@) == "swift"@,
        spec_canonical_id("properties"@) == "properties"@,
        spec_canonical_id("csv"@) == "csv"@,
        spec_canonical_id("yaml"@) == "yaml"@,
        spec_canonical_id("xml"@) == "xml"@,
        spec_canonical_id("html"@) == "html"@,
{
    reveal_strlit("cpp");
    reveal_strlit("java");
    reveal_strlit("javascript");
    reveal_strlit("go");
    reveal_strlit("actions");
    reveal_strlit("csharp");
    reveal_strlit("python");
    reveal_strlit("rust");
    reveal_strlit("ruby");
    reveal_strlit("swift");
    reveal_strlit("properties");
    reveal_strlit("csv");
    reveal_strlit("yaml");
    reveal_strlit("xml");
    reveal_strlit("html");
    reveal_strlit("c");
    reveal_strlit("c++");
    reveal_strlit("c-cpp");
    reveal_strlit("kotlin");
    reveal_strlit("java-kotlin");
    reveal_strlit("typescript");
    reveal_strlit("javascript-typescript");
    reveal_strlit("golang");
    // separate same-length literals by their first characters
    assert("csharp"@ != "kotlin"@) by {
        assert("csharp"@[0] == 'c' && "kotlin"@[0] == 'k');
    }
    assert("csharp"@ != "golang"@) by {
        assert("csharp"@[0] == 'c' && "golang"@[0] == 'g');
    }
    assert("python"@ != "kotlin"@) by {
        assert("python"@[0] == 'p' && "kotlin"@[0] == 'k');
    }
    assert("python"@ != "golang"@) by {
        assert("python"@[0] == 'p' && "golang"@[0] == 'g');
    }
    assert("python"@ != "csharp"@) by {
        assert("python"@[0] == 'p' && "csharp"@[0] == 'c');
    }
    assert("rust"@ != "java"@) by {
        assert("rust"@[0] == 'r' && "java"@[0] == 'j');
    }
    assert("ruby"@ != "java"@) by {
        assert("ruby"@[0] == 'r' && "java"@[0] == 'j');
    }
    assert("ruby"@ != "rust"@) by {
        assert("ruby"@[1] == 'u' && "ruby"@[2] == 'b' && "rust"@[2] == 's');
    }
    assert("swift"@ != "c-cpp"@) by {
        assert("swift"@[0] == 's' && "c-cpp"@[0] == 'c');
    }
    assert("properties"@ != "typescript"@) by {
        assert("properties"@[0] == 'p' && "typescript"@[0] == 't');
    }
    assert("properties"@ != "javascript"@) by {
        assert("properties"@[0] == 'p' && "javascript"@[0] == 'j');
    }
    assert("csv"@ != "c++"@) by {
        assert("csv"@[1] == 's' && "c++"@[1] == '+');
    }
    assert("csv"@ != "cpp"@) by {
        assert("csv"@[1] == 's' && "cpp"@[1] == 'p');
    }
    assert("yaml"@ != "java"@) by {
        assert("yaml"@[0] == 'y' && "java"@[0] == 'j');
    }
    assert("yaml"@ != "rust"@) by {
        assert("yaml"@[0] == 'y' && "rust"@[0] == 'r');
    }
    assert("yaml"@ != "ruby"@) by {
        assert("yaml"@[0] == 'y' && "ruby"@[0] == 'r');
    }
    assert("xml"@ != "c++"@) by {
        assert("xml"@[0] == 'x' && "c++"@[0] == 'c');
    }
    assert("xml"@ != "cpp"@) by {
        assert("xml"@[0] == 'x' && "cpp"@[0] == 'c');
    }
    assert("xml"@ != "csv"@) by {
        assert("xml"@[0] == 'x' && "csv"@[0] == 'c');
    }
    assert("html"@ != "java"@) by {
        assert("html"@[0] == 'h' && "java"@[0] == 'j');
    }
    assert("html"@ != "rust"@) by {
        assert("html"@[0] == 'h' && "rust"@[0] == 'r');
    }
    assert("html"@ != "ruby"@) by {
        assert("html"@[0] == 'h' && "ruby"@[0] == 'r');
    }
    assert("html"@ != "yaml"@) by {
        assert("html"@[0] == 'h' && "yaml"@[0] == 'y');
    }
    lemma_lower_fixed("cpp"@);
    lemma_lower_fixed("java"@);
    lemma_lower_fixed("javascript"@);
    lemma_lower_fixed("go"@);
    lemma_lower_fixed("actions"@);
    lemma_lower_fixed("csharp"@);
    lemma_lower_fixed("python"@);
    lemma_lower_fixed("rust"@);
    lemma_lower_fixed("ruby"@);
    lemma_lower_fixed("swift"@);
    lemma_lower_fixed("properties"@);
    lemma_lower_fixed("csv"@);
    lemma_lower_fixed("yaml"@);
    lemma_lower_fixed("xml"@);
    lemma_lower_fixed("html"@);
}

/// The set of languages a CodeQL installation supports.
#[derive(Debug, Clone, Default)]
pub struct CodeQLLanguages {
    /// The loaded languages.
    pub languages: Vec<CodeQLLanguage>,
}

impl CodeQLLanguages {
    /// The underlying language sequence.
    pub open spec fn spec_languages(&self) -> Seq<CodeQLLanguage> {
        self.languages@
    }

    /// Create a new instance of CodeQLLanguages
    pub fn new(languages: Vec<CodeQLLanguage>) -> (r: Self)
        ensures
            r.spec_languages() == languages@,
    {
        CodeQLLanguages { languages }
    }

    /// Does any extractor of the loaded languages support `language`?
    pub open spec fn spec_check(&self, language: Seq<char>) -> bool {
        exists|i: int, j: int|
            0 <= i < self.languages@.len()
                && 0 <= j < self.languages@[i].spec_extractor().spec_languages().len()
                && self.languages@[i].spec_extractor().spec_languages()[j] == language
    }

    /// Check if a language is supported by CodeQL
    pub fn check(&self, language: &str) -> (r: bool)
        ensures
            r == self.spec_check(language@),
    {
        let n = self.languages.len();
        let mut i: usize = 0;
        while i < n
            invariant
                n == self.languages@.len(),
                0 <= i <= n,
                forall|a: int, b: int|
                    0 <= a < i && 0 <= b
                        < self.languages@[a].spec_extractor().spec_languages().len()
                        ==> self.languages@[a].spec_extractor().spec_languages()[b]
                            != language@,
            decreases n - i,
        {
            let langs = self.languages[i].extractor.languages();
            let m = langs.len();
            let mut j: usize = 0;
            while j < m
                invariant
                    n == self.languages@.len(),
                    0 <= i < n,
                    m == langs@.len(),
                    0 <= j <= m,
                    langs.deep_view() == self.languages@[i as int].spec_extractor()
                        .spec_languages(),
                    forall|b: int| 0 <= b < j
                        ==> self.languages@[i as int].spec_extractor().spec_languages()[b]
                            != language@,
                decreases m - j,
            {
                if text::str_eq(langs[j].as_str(), language) {
                    assert(self.languages@[i as int].spec_extractor().spec_languages()[j as int]
                        == language@);
                    return true;
                }
                assert(self.languages@[i as int].spec_extractor().spec_languages()[j as int]
                    == langs@[j as int]@);
                j += 1;
            }
            i += 1;
        }
        false
    }

    /// Get all languages supported by CodeQL
    pub fn get_all(&self) -> (r: &Vec<CodeQLLanguage>)
        ensures
            r@ == self.spec_languages(),
    {
        &self.languages
    }

    /// The models of the loaded languages, in order.
    pub open spec fn spec_models(&self) -> Seq<LanguageModel> {
        self.languages@.map_values(|l: CodeQLLanguage| l.spec_model())
    }

    /// Get all primary languages supported by CodeQL
    pub fn get_languages(&self) -> (r: Vec<CodeQLLanguage>)
        ensures
            r@.map_values(|l: CodeQLLanguage| l.spec_model()) == self.spec_models().filter(
                |m: LanguageModel| !spec_secondary_model(m),
            ),
    {
        self.filtered(false)
    }

    /// Get all secondary languages supported by CodeQL
    pub fn get_secondary(&self) -> (r: Vec<CodeQLLanguage>)
        ensures
            r@.map_values(|l: CodeQLLanguage| l.spec_model()) == self.spec_models().filter(
                |m: LanguageModel| spec_secondary_model(m),
            ),
    {
        self.filtered(true)
    }

    /// The loaded languages whose secondariness equals `secondary`, in order.
    fn filtered(&self, secondary: bool) -> (r: Vec<CodeQLLanguage>)
        ensures
            secondary ==> r@.map_values(|l: CodeQLLanguage| l.spec_model())
                == self.spec_models().filter(|m: LanguageModel| spec_secondary_model(m)),
            !secondary ==> r@.map_values(|l: CodeQLLanguage| l.spec_model())
                == self.spec_models().filter(|m: LanguageModel| !spec_secondary_model(m)),
    {
        let n = self.languages.len();
        let mut out: Vec<CodeQLLanguage> = Vec::new();
        let mut i: usize = 0;
        proof {
            reveal_with_fuel(Seq::filter, 1);
            assert(self.spec_models().subrange(0, 0) =~= Seq::<LanguageModel>::empty());
            assert(out@.map_values(|l: CodeQLLanguage| l.spec_model())
                =~= Seq::<LanguageModel>::empty());
        }
        while i < n
            invariant
                n == self.languages@.len(),
                0 <= i <= n,
                secondary ==> out@.map_values(|l: CodeQLLanguage| l.spec_model())
                    == self.spec_models().subrange(0, i as int).filter(
                    |m: LanguageModel| spec_secondary_model(m),
                ),
                !secondary ==> out@.map_values(|l: CodeQLLanguage| l.spec_model())
                    == self.spec_models().subrange(0, i as int).filter(
                    |m: LanguageModel| !spec_secondary_model(m),
                ),
            decreases n - i,
        {
            let l = &self.languages[i];
            let keep = if secondary {
                l.is_secondary()
            } else {
                !l.is_secondary()
            };
            proof {
                reveal_with_fuel(Seq::filter, 2);
                let pre = self.spec_models().subrange(0, i as int);
                let post = self.spec_models().subrange(0, i + 1 as int);
                assert(post.drop_last() =~= pre);
                assert(post.last() == self.languages@[i as int].spec_model());
                assert(spec_secondary_model(self.languages@[i as int].spec_model())
                    == self.languages@[i as int].spec_is_secondary());
            }
            let ghost old_out = out@;
            if keep {
                let item = l.duplicate();
                out.push(item);
                proof {
                    assert(out@.map_values(|l: CodeQLLanguage| l.spec_model())
                        =~= old_out.map_values(|l: CodeQLLanguage| l.spec_model()).push(
                        self.languages@[i as int].spec_model(),
                    ));
                }
            }
            proof {
                if secondary {
                    assert(out@.map_values(|l: CodeQLLanguage| l.spec_model())
                        =~= self.spec_models().subrange(0, i + 1 as int).filter(
                        |m: LanguageModel| spec_secondary_model(m),
                    ));
                } else {
                    assert(out@.map_values(|l: CodeQLLanguage| l.spec_model())
                        =~= self.spec_models().subrange(0, i + 1 as int).filter(
                        |m: LanguageModel| !spec_secondary_model(m),
                    ));
                }
            }
            i += 1;
        }
        proof {
            assert(self.spec_models().subrange(0, n as int) =~= self.spec_models());
        }
        out
    }
}

/// The mathematical content of a language: its construction token, its
/// extractor's name, and the languages that extractor supports.
pub ghost struct LanguageModel {
    /// The token the language was constructed from.
    pub name: Seq<char>,
    /// The attached extractor's name; empty when none is attached.
    pub extractor_name: Seq<char>,
    /// The languages the attached extractor reports.
    pub extractor_languages: Seq<Seq<char>>,
}

/// Whether a language model denotes a secondary language: its effective id
/// is a non-code language token.
pub open spec fn spec_secondary_model(m: LanguageModel) -> bool {
    CodeQLLanguage::spec_secondary_token(
        if m.extractor_name.len() > 0 {
            m.extractor_name
        } else {
            m.name
        },
    )
}

} // verus!
