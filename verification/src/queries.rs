//! The query specifier grammar `scope/name[@range][:path]`.
//!
//! A specifier addresses a query pack, a suite inside a pack, or a raw
//! filesystem path (one starting with `/` or `.`). Parsing is permissive:
//! only the empty string is rejected; a bare known language token is sugar
//! for that language's default query pack. Rendering is the left inverse of
//! parsing on the canonical forms (see [`lemma_parse_render_roundtrip`]).

use vstd::prelude::*;

use crate::errors::GHASError;
use crate::languages;
use crate::text;
use crate::text::spec_find;

verus! {

/// The mathematical content of a specifier: its four optional components.
pub ghost struct QueriesView {
    /// The pack's scope (namespace).
    pub scope: Option<Seq<char>>,
    /// The pack's name.
    pub name: Option<Seq<char>>,
    /// The version range after `@`.
    pub range: Option<Seq<char>>,
    /// The suite path after `:`, or the whole filesystem path.
    pub path: Option<Seq<char>>,
}

/// A parsed query specifier: `scope/name@range:path`.
#[derive(Debug, Clone, Default, PartialEq, Eq)]
pub struct CodeQLQueries {
    /// The pack's scope (namespace).
    pub scope: Option<String>,
    /// The pack's name.
    pub name: Option<String>,
    /// The version range after `@`.
    pub range: Option<String>,
    /// The suite path after `:`, or the whole filesystem path.
    pub path: Option<String>,
}

impl View for CodeQLQueries {
    type V = QueriesView;

    open spec fn view(&self) -> QueriesView {
        QueriesView {
            scope: match self.scope {
                Some(s) => Some(s@),
                None => None,
            },
            name: match self.name {
                Some(s) => Some(s@),
                None => None,
            },
            range: match self.range {
                Some(s) => Some(s@),
                None => None,
            },
            path: match self.path {
                Some(s) => Some(s@),
                None => None,
            },
        }
    }
}

/// The specifier with all four components absent.
pub open spec fn spec_empty_queries() -> QueriesView {
    QueriesView { scope: None, name: None, range: None, path: None }
}

/// The default query pack of a language: `codeql/<language>-queries`.
pub open spec fn spec_language_default(language: Seq<char>) -> QueriesView {
    QueriesView {
        scope: Some("codeql"@),
        name: Some(language + "-queries"@),
        range: None,
        path: None,
    }
}

/// What parsing a non-empty specifier string yields, component by component:
/// a string starting with `/` or `.` is a filesystem path; otherwise the
/// string is split at the first `/` into scope and rest, the rest at the
/// first `@` into name and remainder, and the remainder at the first `:`
/// into range and suite path; a bare known language token is sugar for
/// [`spec_language_default`]; any other bare token parses to the empty
/// specifier.
pub open spec fn spec_parse(s: Seq<char>) -> QueriesView
    recommends
        s.len() > 0,
{
    if s.len() > 0 && (s[0] == '/' || s[0] == '.') {
        QueriesView { scope: None, name: None, range: None, path: Some(s) }
    } else {
        let f = spec_find(s, '/');
        if f >= 0 {
            let scope = s.subrange(0, f);
            let rest = s.subrange(f + 1, s.len() as int);
            let a = spec_find(rest, '@');
            if a >= 0 {
                let name = rest.subrange(0, a);
                let rem = rest.subrange(a + 1, rest.len() as int);
                let c = spec_find(rem, ':');
                if c >= 0 {
                    QueriesView {
                        scope: Some(scope),
                        name: Some(name),
                        range: Some(rem.subrange(0, c)),
                        path: Some(rem.subrange(c + 1, rem.len() as int)),
                    }
                } else {
                    QueriesView {
                        scope: Some(scope),
                        name: Some(name),
                        range: Some(rem),
                        path: None,
                    }
                }
            } else {
                QueriesView { scope: Some(scope), name: Some(rest), range: None, path: None }
            }
        } else if languages::spec_known_token(s) {
            spec_language_default(s)
        } else {
            spec_empty_queries()
        }
    }
}

/// What rendering a specifier yields: scope, `/name`, `@range` in order;
/// a suite path is appended after `:`, except that a path on an otherwise
/// empty specifier stands alone.
pub open spec fn spec_render(q: QueriesView) -> Seq<char> {
    let base = (match q.scope {
        Some(s) => s,
        None => Seq::<char>::empty(),
    }) + (match q.name {
        Some(n) => seq!['/'] + n,
        None => Seq::<char>::empty(),
    }) + (match q.range {
        Some(r) => seq!['@'] + r,
        None => Seq::<char>::empty(),
    });
    match q.path {
        Some(p) => if base.len() == 0 {
            p
        } else {
            base + seq![':'] + p
        },
        None => base,
    }
}

impl CodeQLQueries {
    /// Parse a string into a CodeQLQueries instance. Only the empty string
    /// is rejected; every other string parses as [`spec_parse`] describes.
    pub fn parse(value: &str) -> (r: Result<Self, GHASError>)
        ensures
            value@.len() == 0 <==> r is Err,
            match r {
                Ok(q) => q@ == spec_parse(value@),
                Err(e) => e matches GHASError::CodeQLPackError(m)
                    && m@ == "CodeQLQueries cannot be empty"@,
            },
    {
        let n = text::char_len(value);
        if n == 0 {
            return Err(GHASError::CodeQLPackError("CodeQLQueries cannot be empty".to_owned()));
        }
        let c0 = value.get_char(0);
        if c0 == '/' || c0 == '.' {
            return Ok(CodeQLQueries {
                scope: None,
                name: None,
                range: None,
                path: Some(value.to_owned()),
            });
        }
        match text::split_once(value, '/') {
            Some((scope, rest)) => {
                match text::split_once(rest.as_str(), '@') {
                    Some((name, rem)) => {
                        match text::split_once(rem.as_str(), ':') {
                            Some((range, path)) => Ok(CodeQLQueries {
                                scope: Some(scope),
                                name: Some(name),
                                range: Some(range),
                                path: Some(path),
                            }),
                            None => Ok(CodeQLQueries {
                                scope: Some(scope),
                                name: Some(name),
                                range: Some(rem),
                                path: None,
                            }),
                        }
                    }
                    None => Ok(CodeQLQueries {
                        scope: Some(scope),
                        name: Some(rest),
                        range: None,
                        path: None,
                    }),
                }
            }
            None => {
                if languages::known_token(value) {
                    Ok(Self::language_default(value))
                } else {
                    Ok(CodeQLQueries { scope: None, name: None, range: None, path: None })
                }
            }
        }
    }

    /// Create new CodeQL Queries from language
    pub fn language_default(language: &str) -> (r: Self)
        ensures
            r@ == spec_language_default(language@),
    {
        let mut name = language.to_owned();
        name.append("-queries");
        CodeQLQueries {
            scope: Some("codeql".to_owned()),
            name: Some(name),
            range: None,
            path: None,
        }
    }

    /// Name of the query
    pub fn name(&self) -> (r: Option<String>)
        ensures
            match r {
                Some(s) => self@.name == Some(s@),
                None => self@.name is None,
            },
    {
        match &self.name {
            Some(s) => Some(s.clone()),
            None => None,
        }
    }

    /// Get the scope/namespace of the query
    pub fn scope(&self) -> (r: Option<String>)
        ensures
            match r {
                Some(s) => self@.scope == Some(s@),
                None => self@.scope is None,
            },
    {
        match &self.scope {
            Some(s) => Some(s.clone()),
            None => None,
        }
    }

    /// Get the range/version of the query
    pub fn range(&self) -> (r: Option<String>)
        ensures
            match r {
                Some(s) => self@.range == Some(s@),
                None => self@.range is None,
            },
    {
        match &self.range {
            Some(s) => Some(s.clone()),
            None => None,
        }
    }

    /// Get the suite path
    pub fn suite(&self) -> (r: Option<String>)
        ensures
            match r {
                Some(s) => self@.path == Some(s@),
                None => self@.path is None,
            },
    {
        match &self.path {
            Some(s) => Some(s.clone()),
            None => None,
        }
    }

    /// Set a suite path
    pub fn set_path(&mut self, path: &str)
        ensures
            final(self)@ == (QueriesView { path: Some(path@), ..old(self)@ }),
    {
        self.path = Some(path.to_owned());
    }

    /// Render the specifier back to its string form.
    pub fn to_string(&self) -> (r: String)
        ensures
            r@ == spec_render(self@),
    {
        let mut query = String::new();
        if let Some(scope) = &self.scope {
            query.append(scope.as_str());
        }
        if let Some(name) = &self.name {
            query.append("/");
            query.append(name.as_str());
        }
        if let Some(range) = &self.range {
            query.append("@");
            query.append(range.as_str());
        }
        proof {
            reveal_strlit("/");
            reveal_strlit("@");
        }
        if let Some(path) = &self.path {
            if query.as_str().is_empty() {
                query = path.clone();
            } else {
                query.append(":");
                query.append(path.as_str());
            }
            proof {
                reveal_strlit(":");
            }
        }
        proof {
            assert(query@ =~= spec_render(self@));
        }
        query
    }

    /// Parse a specifier string, falling back to the empty specifier when
    /// the string is empty.
    pub fn parse_or_default(value: &str) -> (r: Self)
        ensures
            value@.len() > 0 ==> r@ == spec_parse(value@),
            value@.len() == 0 ==> r@ == spec_empty_queries(),
    {
        match Self::parse(value) {
            Ok(q) => q,
            Err(_) => CodeQLQueries { scope: None, name: None, range: None, path: None },
        }
    }
}

impl From<&str> for CodeQLQueries {
    /// Parse the specifier; an empty string becomes the empty specifier.
    fn from(value: &str) -> (r: Self)
        ensures
            value@.len() > 0 ==> r@ == spec_parse(value@),
            value@.len() == 0 ==> r@ == spec_empty_queries(),
    {
        CodeQLQueries::parse_or_default(value)
    }
}

impl vstd::std_specs::convert::FromSpecImpl<&str> for CodeQLQueries {
    open spec fn obeys_from_spec() -> bool {
        false
    }

    open spec fn from_spec(v: &str) -> Self {
        arbitrary()
    }
}

impl From<String> for CodeQLQueries {
    /// Parse the specifier; an empty string becomes the empty specifier.
    fn from(value: String) -> (r: Self)
        ensures
            value@.len() > 0 ==> r@ == spec_parse(value@),
            value@.len() == 0 ==> r@ == spec_empty_queries(),
    {
        CodeQLQueries::parse_or_default(value.as_str())
    }
}

impl vstd::std_specs::convert::FromSpecImpl<String> for CodeQLQueries {
    open spec fn obeys_from_spec() -> bool {
        false
    }

    open spec fn from_spec(v: String) -> Self {
        arbitrary()
    }
}

/// The canonical specifiers: the forms the renderer emits unambiguously.
/// A filesystem form is a lone path starting with `/` or `.`; a pack form
/// has a scope free of `/` not starting with `.`, a name free of `@`, no
/// `:` inside a range, and a suite path only alongside a range.
pub open spec fn spec_wf_canonical(q: QueriesView) -> bool {
    ||| {
        &&& q.scope is None
        &&& q.name is None
        &&& q.range is None
        &&& q.path matches Some(p) && p.len() > 0 && (p[0] == '/' || p[0] == '.')
    }
    ||| {
        &&& q.scope matches Some(s) && s.len() > 0 && s[0] != '.' && spec_find(s, '/') < 0
        &&& q.name matches Some(n) && spec_find(n, '@') < 0
        &&& (q.range matches Some(r) ==> spec_find(r, ':') < 0)
        &&& (q.path is Some ==> q.range is Some)
    }
}

/// If `c` does not occur in `a`, the first `c` of `a + [c] + b` is the one
/// in the middle, at index `a.len()`.
proof fn lemma_find_concat(a: Seq<char>, b: Seq<char>, c: char)
    requires
        spec_find(a, c) < 0,
    ensures
        spec_find(a + seq![c] + b, c) == a.len(),
    decreases a.len(),
{
    let s = a + seq![c] + b;
    if a.len() == 0 {
        assert(s[0] == c);
    } else {
        assert(s[0] == a[0]);
        lemma_find_concat(a.subrange(1, a.len() as int), b, c);
        assert(s.subrange(1, s.len() as int) =~= a.subrange(1, a.len() as int) + seq![c] + b);
    }
}

/// **Round-trip law.** Parsing the rendering of any canonical specifier —
/// every specifier `language_default` produces is one — yields the same
/// specifier, component for component.
pub proof fn lemma_parse_render_roundtrip(q: QueriesView)
    requires
        spec_wf_canonical(q),
    ensures
        spec_render(q).len() > 0,
        spec_parse(spec_render(q)) == q,
{
    let s = spec_render(q);
    if q.scope is None {
        let p = q.path.unwrap();
        assert(s == p);
        assert(spec_parse(s) == q);
    } else {
        let sc = q.scope.unwrap();
        let n = q.name.unwrap();
        let tail_r = match q.range {
            Some(r) => seq!['@'] + r,
            None => Seq::<char>::empty(),
        };
        let tail_p = match q.path {
            Some(p) => seq![':'] + p,
            None => Seq::<char>::empty(),
        };
        // the rendered string is scope / name (@ range (: path)?)?
        let rest = n + tail_r + tail_p;
        assert(s =~= sc + seq!['/'] + rest);
        assert(s.len() > 0);
        assert(s[0] == sc[0]);
        text::lemma_spec_find(sc, '/');
        lemma_find_concat(sc, rest, '/');
        let f = spec_find(s, '/');
        assert(f == sc.len());
        assert(s.subrange(0, f) =~= sc);
        assert(s.subrange(f + 1, s.len() as int) =~= rest);
        match q.range {
            Some(r) => {
                let rem = r + tail_p;
                assert(rest =~= n + seq!['@'] + rem);
                lemma_find_concat(n, rem, '@');
                let a = spec_find(rest, '@');
                assert(a == n.len());
                assert(rest.subrange(0, a) =~= n);
                assert(rest.subrange(a + 1, rest.len() as int) =~= rem);
                match q.path {
                    Some(p) => {
                        assert(rem =~= r + seq![':'] + p);
                        lemma_find_concat(r, p, ':');
                        let c = spec_find(rem, ':');
                        assert(c == r.len());
                        assert(rem.subrange(0, c) =~= r);
                        assert(rem.subrange(c + 1, rem.len() as int) =~= p);
                        assert(spec_parse(s) == q);
                    }
                    None => {
                        assert(rem =~= r);
                        text::lemma_spec_find(rem, ':');
                        assert(spec_parse(s) == q);
                    }
                }
            }
            None => {
                // without a range there is no `@` and no path in the render
                assert(q.path is None);
                assert(rest =~= n);
                text::lemma_spec_find(rest, '@');
                assert(spec_parse(s) == q);
            }
        }
    }
}

/// The default pack specifier of a language round-trips whenever the
/// language token holds no `@`.
pub proof fn lemma_language_default_roundtrip(language: Seq<char>)
    requires
        spec_find(language, '@') < 0,
    ensures
        spec_parse(spec_render(spec_language_default(language))) == spec_language_default(
            language,
        ),
{
    let q = spec_language_default(language);
    reveal_strlit("codeql");
    reveal_strlit("-queries");
    text::lemma_spec_find("codeql"@, '/');
    assert(spec_find("codeql"@, '/') < 0) by {
        text::lemma_spec_find("codeql"@, '/');
        if spec_find("codeql"@, '/') >= 0 {
            let i = spec_find("codeql"@, '/');
            assert("codeql"@[i] == '/');
        }
    }
    assert("codeql"@[0] == 'c');
    assert(spec_find(language + "-queries"@, '@') < 0) by {
        text::lemma_spec_find(language + "-queries"@, '@');
        text::lemma_spec_find(language, '@');
        if spec_find(language + "-queries"@, '@') >= 0 {
            let i = spec_find(language + "-queries"@, '@');
            let cat = language + "-queries"@;
            assert(cat[i] == '@');
            if i < language.len() {
                assert(language[i] == '@');
            } else {
                assert("-queries"@[i - language.len()] == '@');
            }
        }
    }
    assert(spec_wf_canonical(q));
    lemma_parse_render_roundtrip(q);
}

} // verus!
