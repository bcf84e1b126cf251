//! GitHub repository references.
//!
//! A reference string has the shape `owner/name[(:|/)path][@branch]`, with
//! owner and name drawn from `[A-Za-z0-9._-]`, path segments additionally
//! allowing `/`, and the branch drawn from `[A-Za-z0-9_/-]`. The parser
//! validates that shape and then splits at the first `@` and on every `/`;
//! a string of any other shape yields the default (empty) repository rather
//! than an error.

use vstd::prelude::*;

use crate::errors::GHASError;
use crate::text;
use crate::text::{spec_find, spec_join, spec_split};

verus! {

/// Characters allowed in owner and name segments.
pub open spec fn spec_class_a(c: char) -> bool {
    ('a' <= c && c <= 'z') || ('A' <= c && c <= 'Z') || ('0' <= c && c <= '9') || c == '-'
        || c == '_' || c == '.'
}

/// Characters allowed in a path tail: the name class plus `/`.
pub open spec fn spec_class_p(c: char) -> bool {
    spec_class_a(c) || c == '/'
}

/// Characters allowed in a branch: letters, digits, `-`, `_` and `/`.
pub open spec fn spec_class_b(c: char) -> bool {
    ('a' <= c && c <= 'z') || ('A' <= c && c <= 'Z') || ('0' <= c && c <= '9') || c == '-'
        || c == '_' || c == '/'
}

/// Every character of `s` is in the owner/name class.
pub open spec fn spec_all_a(s: Seq<char>) -> bool {
    forall|i: int| 0 <= i < s.len() ==> spec_class_a(#[trigger] s[i])
}

/// Every character of `s` is in the path class.
pub open spec fn spec_all_p(s: Seq<char>) -> bool {
    forall|i: int| 0 <= i < s.len() ==> spec_class_p(#[trigger] s[i])
}

/// Every character of `s` is in the branch class.
pub open spec fn spec_all_b(s: Seq<char>) -> bool {
    forall|i: int| 0 <= i < s.len() ==> spec_class_b(#[trigger] s[i])
}

/// Index of the first `:` or `/` in `s`, or -1 when neither occurs.
pub open spec fn spec_find_sep(s: Seq<char>) -> int
    decreases s.len(),
{
    if s.len() == 0 {
        -1
    } else if s[0] == ':' || s[0] == '/' {
        0
    } else {
        let r = spec_find_sep(s.subrange(1, s.len() as int));
        if r < 0 {
            -1
        } else {
            r + 1
        }
    }
}

/// `spec_find_sep` points at the first separator, if any.
proof fn lemma_spec_find_sep(s: Seq<char>)
    ensures
        spec_find_sep(s) >= 0 ==> {
            &&& spec_find_sep(s) < s.len()
            &&& (s[spec_find_sep(s)] == ':' || s[spec_find_sep(s)] == '/')
            &&& forall|j: int| 0 <= j < spec_find_sep(s) ==> s[j] != ':' && s[j] != '/'
        },
        spec_find_sep(s) < 0 ==> forall|j: int| 0 <= j < s.len() ==> s[j] != ':' && s[j] != '/',
    decreases s.len(),
{
    if s.len() > 0 && !(s[0] == ':' || s[0] == '/') {
        let t = s.subrange(1, s.len() as int);
        lemma_spec_find_sep(t);
        assert forall|j: int| 1 <= j < s.len() implies s[j] == t[j - 1] by {}
    }
}

/// The part of a reference before its first `@`, or all of it.
pub open spec fn spec_head(s: Seq<char>) -> Seq<char> {
    let at = spec_find(s, '@');
    if at >= 0 {
        s.subrange(0, at)
    } else {
        s
    }
}

/// The part of a reference after its first `@`, if any.
pub open spec fn spec_branch_part(s: Seq<char>) -> Option<Seq<char>> {
    let at = spec_find(s, '@');
    if at >= 0 {
        Some(s.subrange(at + 1, s.len() as int))
    } else {
        None
    }
}

/// The name-and-path tail of a head is valid: a non-empty name segment,
/// optionally followed by `:` or `/` and a non-empty path.
pub open spec fn spec_valid_tail(rest: Seq<char>) -> bool {
    let d = spec_find_sep(rest);
    if d < 0 {
        rest.len() >= 1 && spec_all_a(rest)
    } else {
        &&& d >= 1
        &&& spec_all_a(rest.subrange(0, d))
        &&& rest.len() - d - 1 >= 1
        &&& spec_all_p(rest.subrange(d + 1, rest.len() as int))
    }
}

/// A repository reference is valid when its head is `owner/rest` with a
/// non-empty owner in the name class and a valid tail, and its branch, if
/// present, is non-empty and in the branch class.
pub open spec fn spec_valid_repo_ref(s: Seq<char>) -> bool {
    let head = spec_head(s);
    let sl = spec_find(head, '/');
    &&& (match spec_branch_part(s) {
        Some(br) => br.len() >= 1 && spec_all_b(br),
        None => true,
    })
    &&& sl >= 1
    &&& spec_all_a(head.subrange(0, sl))
    &&& spec_valid_tail(head.subrange(sl + 1, head.len() as int))
}

/// The `/`-separated blocks of the head of a valid reference.
pub open spec fn spec_blocks(s: Seq<char>) -> Seq<Seq<char>> {
    spec_split(spec_head(s), '/')
}

/// GitHub Repository
#[derive(Debug, Clone)]
pub struct Repository {
    /// Owner of the repository (organization or user)
    pub owner: String,
    /// Name of the repository
    pub name: String,
    /// Full reference (e.g. refs/heads/main)
    pub reference: Option<String>,
    /// Branch name (e.g. main)
    pub branch: Option<String>,
    /// Path to a file or directory relative to the repository root
    pub path: String,
    /// Repository root path
    pub root: String,
}

/// The mathematical content of a repository value.
pub ghost struct RepositoryView {
    /// Owner of the repository.
    pub owner: Seq<char>,
    /// Name of the repository.
    pub name: Seq<char>,
    /// Full git reference.
    pub reference: Option<Seq<char>>,
    /// Branch name.
    pub branch: Option<Seq<char>>,
    /// Path relative to the repository root.
    pub path: Seq<char>,
    /// Repository root path.
    pub root: Seq<char>,
}

impl View for Repository {
    type V = RepositoryView;

    open spec fn view(&self) -> RepositoryView {
        RepositoryView {
            owner: self.owner@,
            name: self.name@,
            reference: match self.reference {
                Some(r) => Some(r@),
                None => None,
            },
            branch: match self.branch {
                Some(b) => Some(b@),
                None => None,
            },
            path: self.path@,
            root: self.root@,
        }
    }
}

/// The repository with every field empty.
pub open spec fn spec_empty_repository() -> RepositoryView {
    RepositoryView {
        owner: Seq::empty(),
        name: Seq::empty(),
        reference: None,
        branch: None,
        path: Seq::empty(),
        root: Seq::empty(),
    }
}

/// What parsing a valid reference yields: the blocks of the head name the
/// owner and the repository, further blocks form the path, and the part
/// after `@` names the branch with its full `refs/heads/` reference.
pub open spec fn spec_parsed_repository(s: Seq<char>) -> RepositoryView {
    let blocks = spec_blocks(s);
    RepositoryView {
        owner: blocks[0],
        name: if blocks.len() > 1 {
            blocks[1]
        } else {
            Seq::empty()
        },
        reference: match spec_branch_part(s) {
            Some(br) => Some("refs/heads/"@ + br),
            None => None,
        },
        branch: spec_branch_part(s),
        path: if blocks.len() > 2 {
            spec_join(blocks.subrange(2, blocks.len() as int), '/')
        } else {
            Seq::empty()
        },
        root: Seq::empty(),
    }
}

/// Is every character of `s` in the owner/name class?
fn all_a(s: &str) -> (r: bool)
    ensures
        r == spec_all_a(s@),
{
    let n = s.unicode_len();
    let mut i: usize = 0;
    while i < n
        invariant
            n == s@.len(),
            0 <= i <= n,
            forall|j: int| 0 <= j < i ==> spec_class_a(#[trigger] s@[j]),
        decreases n - i,
    {
        let c = s.get_char(i);
        if !(('a' <= c && c <= 'z') || ('A' <= c && c <= 'Z') || ('0' <= c && c <= '9')
            || c == '-' || c == '_' || c == '.') {
            return false;
        }
        i += 1;
    }
    true
}

/// Is every character of `s` in the path class?
fn all_p(s: &str) -> (r: bool)
    ensures
        r == spec_all_p(s@),
{
    let n = s.unicode_len();
    let mut i: usize = 0;
    while i < n
        invariant
            n == s@.len(),
            0 <= i <= n,
            forall|j: int| 0 <= j < i ==> spec_class_p(#[trigger] s@[j]),
        decreases n - i,
    {
        let c = s.get_char(i);
        if !(('a' <= c && c <= 'z') || ('A' <= c && c <= 'Z') || ('0' <= c && c <= '9')
            || c == '-' || c == '_' || c == '.' || c == '/') {
            return false;
        }
        i += 1;
    }
    true
}

/// Is every character of `s` in the branch class?
fn all_b(s: &str) -> (r: bool)
    ensures
        r == spec_all_b(s@),
{
    let n = s.unicode_len();
    let mut i: usize = 0;
    while i < n
        invariant
            n == s@.len(),
            0 <= i <= n,
            forall|j: int| 0 <= j < i ==> spec_class_b(#[trigger] s@[j]),
        decreases n - i,
    {
        let c = s.get_char(i);
        if !(('a' <= c && c <= 'z') || ('A' <= c && c <= 'Z') || ('0' <= c && c <= '9')
            || c == '-' || c == '_' || c == '/') {
            return false;
        }
        i += 1;
    }
    true
}

/// Position of the first `:` or `/` in `s`.
fn find_sep(s: &str) -> (r: Option<usize>)
    ensures
        match r {
            Some(i) => i == spec_find_sep(s@),
            None => spec_find_sep(s@) < 0,
        },
{
    let n = s.unicode_len();
    let mut i: usize = 0;
    while i < n
        invariant
            n == s@.len(),
            0 <= i <= n,
            forall|j: int| 0 <= j < i ==> s@[j] != ':' && s@[j] != '/',
        decreases n - i,
    {
        let c = s.get_char(i);
        if c == ':' || c == '/' {
            proof {
                lemma_spec_find_sep(s@);
                let f = spec_find_sep(s@);
                if f < 0 {
                    assert(s@[i as int] != ':' && s@[i as int] != '/');
                }
                if f < i {
                    assert(s@[f] != ':' && s@[f] != '/');
                }
                if f > i {
                    assert(s@[i as int] != ':' && s@[i as int] != '/');
                }
            }
            return Some(i);
        }
        i += 1;
    }
    proof {
        lemma_spec_find_sep(s@);
        if spec_find_sep(s@) >= 0 {
            assert(s@[spec_find_sep(s@)] != ':');
        }
    }
    None
}

/// Does `s` match the repository reference grammar?
fn is_valid_repo_ref(s: &str) -> (r: bool)
    ensures
        r == spec_valid_repo_ref(s@),
{
    let (head, branch): (String, Option<String>) = match text::split_once(s, '@') {
        Some((h, b)) => (h, Some(b)),
        None => (s.to_owned(), None),
    };
    if let Some(b) = &branch {
        if b.as_str().unicode_len() < 1 || !all_b(b.as_str()) {
            return false;
        }
    }
    match text::split_once(head.as_str(), '/') {
        Some((owner, rest)) => {
            proof {
                text::lemma_spec_find(head@, '/');
            }
            if owner.as_str().unicode_len() < 1 || !all_a(owner.as_str()) {
                return false;
            }
            let rest_s = rest.as_str();
            match find_sep(rest_s) {
                Some(d) => {
                    proof {
                        lemma_spec_find_sep(rest@);
                    }
                    let rn = rest_s.unicode_len();
                    if d < 1 {
                        return false;
                    }
                    let name = text::substring(rest_s, 0, d);
                    let tail = text::substring(rest_s, d + 1, rn);
                    if !all_a(name.as_str()) {
                        return false;
                    }
                    if tail.as_str().unicode_len() < 1 || !all_p(tail.as_str()) {
                        return false;
                    }
                    true
                }
                None => rest_s.unicode_len() >= 1 && all_a(rest_s),
            }
        }
        None => false,
    }
}

impl Repository {
    /// Create a new Repository instance with owner (organization or user)
    /// and repo name.
    pub fn new(owner: &str, repo: &str) -> (r: Self)
        ensures
            r@ == (RepositoryView { owner: owner@, name: repo@, ..spec_empty_repository() }),
    {
        Repository {
            owner: owner.to_owned(),
            name: repo.to_owned(),
            reference: None,
            branch: None,
            path: String::new(),
            root: String::new(),
        }
    }

    /// Initialize a new Repository instance with a builder pattern
    pub fn init() -> (r: RepositoryBuilder)
        ensures
            r@ == spec_empty_repository(),
    {
        RepositoryBuilder::new()
    }

    /// Get the Repository owner
    pub fn owner(&self) -> (r: &str)
        ensures
            r@ == self@.owner,
    {
        self.owner.as_str()
    }

    /// Get the Repository name
    pub fn name(&self) -> (r: &str)
        ensures
            r@ == self@.name,
    {
        self.name.as_str()
    }

    /// Get the Repository reference
    pub fn reference(&self) -> (r: Option<&str>)
        ensures
            match r {
                Some(s) => self@.reference == Some(s@),
                None => self@.reference is None,
            },
    {
        match &self.reference {
            Some(s) => Some(s.as_str()),
            None => None,
        }
    }

    /// Get the Repository branch
    pub fn branch(&self) -> (r: Option<&str>)
        ensures
            match r {
                Some(s) => self@.branch == Some(s@),
                None => self@.branch is None,
            },
    {
        match &self.branch {
            Some(s) => Some(s.as_str()),
            None => None,
        }
    }

    /// Get file or directory relative to the repository root
    pub fn path(&self) -> (r: &String)
        ensures
            r@ == self@.path,
    {
        &self.path
    }

    /// Get full path to file or directory relative to the repository root
    pub fn fullpath(&self) -> (r: String)
        ensures
            r@ == text::spec_path_join(self@.root, self@.path),
    {
        text::path_join(self.root.as_str(), self.path.as_str())
    }

    /// Get root path of the repository
    pub fn root(&self) -> (r: &String)
        ensures
            r@ == self@.root,
    {
        &self.root
    }

    /// Set the Repository root path
    pub fn set_root(&mut self, root: String)
        ensures
            final(self)@ == (RepositoryView { root: root@, ..old(self)@ }),
    {
        self.root = root;
    }

    /// A field-preserving copy.
    pub(crate) fn duplicate(&self) -> (r: Self)
        ensures
            r@ == self@,
    {
        Repository {
            owner: self.owner.clone(),
            name: self.name.clone(),
            reference: match &self.reference {
                Some(s) => Some(s.clone()),
                None => None,
            },
            branch: match &self.branch {
                Some(s) => Some(s.clone()),
                None => None,
            },
            path: self.path.clone(),
            root: self.root.clone(),
        }
    }

    /// Render the repository as `owner/name`, with `@branch` when set.
    pub fn to_string(&self) -> (r: String)
        ensures
            r@ == match self@.branch {
                Some(b) => self@.owner + seq!['/'] + self@.name + seq!['@'] + b,
                None => self@.owner + seq!['/'] + self@.name,
            },
    {
        let mut out = self.owner.clone();
        proof {
            reveal_strlit("/");
            reveal_strlit("@");
        }
        out.append("/");
        out.append(self.name.as_str());
        if let Some(b) = &self.branch {
            out.append("@");
            out.append(b.as_str());
            proof {
                assert(out@ =~= self@.owner + seq!['/'] + self@.name + seq!['@']
                    + self@.branch.unwrap());
            }
        } else {
            proof {
                assert(out@ =~= self@.owner + seq!['/'] + self@.name);
            }
        }
        out
    }

    /// Parse and return a Repository instance from a repository reference
    /// such as `owner/name`, `owner/name@branch` or `owner/name/sub/dir`.
    /// A string outside the grammar yields the empty repository; parsing
    /// itself never fails.
    pub fn parse(reporef: &str) -> (r: Result<Repository, GHASError>)
        ensures
            r is Ok,
            match r {
                Ok(repo) => repo@ == if spec_valid_repo_ref(reporef@) {
                    spec_parsed_repository(reporef@)
                } else {
                    spec_empty_repository()
                },
                Err(_) => false,
            },
    {
        if !is_valid_repo_ref(reporef) {
            return Ok(Repository {
                owner: String::new(),
                name: String::new(),
                reference: None,
                branch: None,
                path: String::new(),
                root: String::new(),
            });
        }
        let (head, branch): (String, Option<String>) = match text::split_once(reporef, '@') {
            Some((h, b)) => (h, Some(b)),
            None => (reporef.to_owned(), None),
        };
        let reference: Option<String> = match &branch {
            Some(b) => {
                let mut refs = "refs/heads/".to_owned();
                refs.append(b.as_str());
                Some(refs)
            }
            None => None,
        };
        let ghost head_view = head@;
        let blocks = text::split_all(head.as_str(), '/');
        proof {
            text::lemma_spec_split_len(head_view, '/');
            assert(blocks.deep_view() == spec_blocks(reporef@));
        }
        let owner = blocks[0].clone();
        let name: String = if blocks.len() > 1 {
            blocks[1].clone()
        } else {
            String::new()
        };
        proof {
            reveal_strlit("/");
        }
        let path: String = if blocks.len() > 2 {
            let mut tail: Vec<String> = Vec::new();
            let bn = blocks.len();
            let mut i: usize = 2;
            while i < bn
                invariant
                    bn == blocks@.len(),
                    2 <= i <= bn,
                    tail@.len() == i - 2,
                    forall|j: int| 0 <= j < i - 2 ==> #[trigger] tail@[j]@ == blocks@[j + 2]@,
                decreases bn - i,
            {
                let piece = blocks[i].clone();
                assert(piece@ == blocks@[i as int]@);
                tail.push(piece);
                i += 1;
            }
            proof {
                assert forall|j: int| 0 <= j < bn - 2
                    implies #[trigger] tail.deep_view()[j] == blocks.deep_view().subrange(
                    2,
                    bn as int,
                )[j] by {
                    assert(tail@[j]@ == blocks@[j + 2]@);
                }
                assert(tail.deep_view() =~= blocks.deep_view().subrange(2, bn as int));
            }
            text::join(&tail, "/")
        } else {
            String::new()
        };
        proof {
            assert(owner@ == blocks.deep_view()[0]);
            if blocks@.len() > 1 {
                assert(name@ == blocks.deep_view()[1]);
            }
            reveal_strlit("/");
        }
        let r = Repository { owner, name, reference, branch, path, root: String::new() };
        proof {
            assert(r@ == spec_parsed_repository(reporef@));
        }
        Ok(r)
    }
}

/// Repository Builder pattern
#[derive(Debug, Clone)]
pub struct RepositoryBuilder {
    /// Owner of the repository.
    pub owner: String,
    /// Name of the repository.
    pub name: String,
    /// Full git reference.
    pub reference: Option<String>,
    /// Branch name.
    pub branch: Option<String>,
    /// Path relative to the repository root.
    pub path: String,
    /// Repository root path.
    pub root: String,
}

impl View for RepositoryBuilder {
    type V = RepositoryView;

    open spec fn view(&self) -> RepositoryView {
        RepositoryView {
            owner: self.owner@,
            name: self.name@,
            reference: match self.reference {
                Some(r) => Some(r@),
                None => None,
            },
            branch: match self.branch {
                Some(b) => Some(b@),
                None => None,
            },
            path: self.path@,
            root: self.root@,
        }
    }
}

impl RepositoryBuilder {
    /// An empty builder.
    pub fn new() -> (r: Self)
        ensures
            r@ == spec_empty_repository(),
    {
        RepositoryBuilder {
            owner: String::new(),
            name: String::new(),
            reference: None,
            branch: None,
            path: String::new(),
            root: String::new(),
        }
    }

    /// Set the Repository owner
    pub fn owner(self, owner: &str) -> (r: Self)
        ensures
            r@ == (RepositoryView { owner: owner@, ..self@ }),
    {
        RepositoryBuilder { owner: owner.to_owned(), ..self }
    }

    /// Set the Repository name
    pub fn name(self, name: &str) -> (r: Self)
        ensures
            r@ == (RepositoryView { name: name@, ..self@ }),
    {
        RepositoryBuilder { name: name.to_owned(), ..self }
    }

    /// Set the Repository owner/name from a combined `owner/name` string;
    /// a string without `/` leaves the builder unchanged.
    pub fn repo(self, repo: &str) -> (r: Self)
        ensures
            spec_find(repo@, '/') >= 0 ==> r@ == (RepositoryView {
                owner: repo@.subrange(0, spec_find(repo@, '/')),
                name: repo@.subrange(spec_find(repo@, '/') + 1, repo@.len() as int),
                ..self@
            }),
            spec_find(repo@, '/') < 0 ==> r@ == self@,
    {
        match text::split_once(repo, '/') {
            Some((owner, name)) => RepositoryBuilder {
                owner,
                name,
                ..self
            },
            None => self,
        }
    }

    /// Set the Repository reference; a reference containing `heads/` also
    /// sets the branch to what follows its first occurrence.
    pub fn reference(self, reference: &str) -> (r: Self)
        ensures
            r@.reference == Some(reference@),
            r@.owner == self@.owner && r@.name == self@.name && r@.path == self@.path
                && r@.root == self@.root,
            text::spec_contains_sub(reference@, "heads/"@) ==> r@.branch == Some(
                reference@.subrange(
                    text::spec_first_match(reference@, "heads/"@) + 6,
                    reference@.len() as int,
                ),
            ),
            !text::spec_contains_sub(reference@, "heads/"@) ==> r@.branch == self@.branch,
    {
        proof {
            reveal_strlit("heads/");
            assert("heads/"@.len() == 6);
        }
        let branch: Option<String> = match text::find_sub(reference, "heads/") {
            Some(i) => {
                proof {
                    // the found index and the leftmost occurrence coincide
                    text::lemma_spec_first_match(reference@, "heads/"@);
                    let f = text::spec_first_match(reference@, "heads/"@);
                    if f < i {
                        assert(!text::spec_match_at(reference@, "heads/"@, f));
                    }
                    if f > i {
                        assert(!text::spec_match_at(reference@, "heads/"@, i as int));
                    }
                    assert(f == i);
                }
                let n = reference.unicode_len();
                Some(text::substring(reference, i + 6, n))
            }
            None => match &self.branch {
                Some(b) => Some(b.clone()),
                None => None,
            },
        };
        RepositoryBuilder { reference: Some(reference.to_owned()), branch, ..self }
    }

    /// Set the Repository branch; a non-empty branch also sets the full
    /// `refs/heads/` reference, an empty one changes nothing.
    pub fn branch(self, branch: &str) -> (r: Self)
        ensures
            branch@.len() > 0 ==> r@ == (RepositoryView {
                branch: Some(branch@),
                reference: Some("refs/heads/"@ + branch@),
                ..self@
            }),
            branch@.len() == 0 ==> r@ == self@,
    {
        if branch.unicode_len() > 0 {
            let mut refs = "refs/heads/".to_owned();
            refs.append(branch);
            RepositoryBuilder {
                branch: Some(branch.to_owned()),
                reference: Some(refs),
                ..self
            }
        } else {
            self
        }
    }

    /// Set the Repository path
    pub fn path(self, path: &str) -> (r: Self)
        ensures
            r@ == (RepositoryView { path: path@, ..self@ }),
    {
        RepositoryBuilder { path: path.to_owned(), ..self }
    }

    /// Set the Repository root source path
    pub fn root(self, root: &str) -> (r: Self)
        ensures
            r@ == (RepositoryView { root: root@, ..self@ }),
    {
        RepositoryBuilder { root: root.to_owned(), ..self }
    }

    /// Build the Repository
    pub fn build(&self) -> (r: Result<Repository, GHASError>)
        ensures
            r matches Ok(repo) && repo@ == self@,
    {
        Ok(Repository {
            owner: self.owner.clone(),
            name: self.name.clone(),
            reference: match &self.reference {
                Some(s) => Some(s.clone()),
                None => None,
            },
            branch: match &self.branch {
                Some(s) => Some(s.clone()),
                None => None,
            },
            path: self.path.clone(),
            root: self.root.clone(),
        })
    }
}

} // verus!
