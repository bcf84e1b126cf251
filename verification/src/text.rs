//! Verified string utilities.
//!
//! Every routine in this module is executable and fully specified over the
//! character-sequence views of its inputs. The toolkit's parsers and
//! renderers are built on these primitives.

use vstd::prelude::*;

verus! {

/// Index of the first occurrence of `c` in `s`, or -1 when absent.
pub open spec fn spec_find(s: Seq<char>, c: char) -> int
    decreases s.len(),
{
    if s.len() == 0 {
        -1
    } else if s[0] == c {
        0
    } else {
        let r = spec_find(s.subrange(1, s.len() as int), c);
        if r < 0 {
            -1
        } else {
            r + 1
        }
    }
}

/// The first occurrence returned by `spec_find` is sound: the index is in
/// range, holds `c`, and nothing before it does; -1 means `c` is absent.
pub proof fn lemma_spec_find(s: Seq<char>, c: char)
    ensures
        spec_find(s, c) >= 0 ==> {
            &&& spec_find(s, c) < s.len()
            &&& s[spec_find(s, c)] == c
            &&& forall|j: int| 0 <= j < spec_find(s, c) ==> s[j] != c
        },
        spec_find(s, c) < 0 ==> forall|j: int| 0 <= j < s.len() ==> s[j] != c,
    decreases s.len(),
{
    if s.len() > 0 && s[0] != c {
        let t = s.subrange(1, s.len() as int);
        lemma_spec_find(t, c);
        assert forall|j: int| 1 <= j < s.len() implies s[j] == t[j - 1] by {}
    }
}

/// Length of the string as a number of characters.
pub fn char_len(s: &str) -> (n: usize)
    ensures
        n == s@.len(),
{
    s.unicode_len()
}

/// Character-wise equality of two string slices.
pub fn str_eq(a: &str, b: &str) -> (r: bool)
    ensures
        r == (a@ == b@),
{
    let na = a.unicode_len();
    let nb = b.unicode_len();
    if na != nb {
        assert(a@ != b@) by {
            assert(a@.len() != b@.len());
        }
        return false;
    }
    let mut i: usize = 0;
    while i < na
        invariant
            na == a@.len(),
            na == b@.len(),
            0 <= i <= na,
            forall|j: int| 0 <= j < i ==> a@[j] == b@[j],
        decreases na - i,
    {
        if a.get_char(i) != b.get_char(i) {
            assert(a@ != b@);
            return false;
        }
        i += 1;
    }
    proof {
        assert(a@ =~= b@);
    }
    true
}

/// Position of the first occurrence of `c` in `s`.
pub fn find_char(s: &str, c: char) -> (r: Option<usize>)
    ensures
        match r {
            Some(i) => i == spec_find(s@, c),
            None => spec_find(s@, c) < 0,
        },
{
    let n = s.unicode_len();
    let mut i: usize = 0;
    while i < n
        invariant
            n == s@.len(),
            0 <= i <= n,
            forall|j: int| 0 <= j < i ==> s@[j] != c,
        decreases n - i,
    {
        if s.get_char(i) == c {
            proof {
                lemma_spec_find(s@, c);
                let f = spec_find(s@, c);
                if f < 0 {
                    assert(s@[i as int] != c);
                }
                if f < i {
                    assert(s@[f] != c);
                }
                if f > i {
                    assert(s@[i as int] != c);
                }
            }
            return Some(i);
        }
        i += 1;
    }
    proof {
        lemma_spec_find(s@, c);
        if spec_find(s@, c) >= 0 {
            assert(s@[spec_find(s@, c)] != c);
        }
    }
    None
}

/// Copy of the characters `from..to` of `s`.
pub fn substring(s: &str, from: usize, to: usize) -> (r: String)
    requires
        0 <= from <= to <= s@.len(),
    ensures
        r@ == s@.subrange(from as int, to as int),
{
    let sub = s.substring_char(from, to);
    sub.to_owned()
}

/// Split `s` at the first occurrence of `sep`.
///
/// The two halves carry everything around that occurrence: `s` equals
/// `left + sep + right` and `left` is free of `sep`.
pub fn split_once(s: &str, sep: char) -> (r: Option<(String, String)>)
    ensures
        match r {
            Some((left, right)) => {
                &&& spec_find(s@, sep) >= 0
                &&& left@ == s@.subrange(0, spec_find(s@, sep))
                &&& right@ == s@.subrange(spec_find(s@, sep) + 1, s@.len() as int)
            },
            None => spec_find(s@, sep) < 0,
        },
{
    proof {
        lemma_spec_find(s@, sep);
    }
    match find_char(s, sep) {
        Some(i) => {
            let n = s.unicode_len();
            let left = substring(s, 0, i);
            let right = substring(s, i + 1, n);
            Some((left, right))
        }
        None => None,
    }
}

/// All pieces of `s` delimited by `sep`, in order.
pub open spec fn spec_split(s: Seq<char>, sep: char) -> Seq<Seq<char>>
    decreases s.len(),
{
    let f = spec_find(s, sep);
    if f < 0 || f >= s.len() {
        seq![s]
    } else {
        seq![s.subrange(0, f)] + spec_split(s.subrange(f + 1, s.len() as int), sep)
    }
}

/// `spec_split` always yields at least one piece.
pub proof fn lemma_spec_split_len(s: Seq<char>, sep: char)
    ensures
        spec_split(s, sep).len() >= 1,
    decreases s.len(),
{
    let f = spec_find(s, sep);
    if f >= 0 {
        lemma_spec_find(s, sep);
        lemma_spec_split_len(s.subrange(f + 1, s.len() as int), sep);
    }
}

/// Split `s` at every occurrence of `sep`.
pub fn split_all(s: &str, sep: char) -> (r: Vec<String>)
    ensures
        r.deep_view() == spec_split(s@, sep),
    decreases s@.len(),
{
    proof {
        lemma_spec_find(s@, sep);
    }
    match split_once(s, sep) {
        Some((left, right)) => {
            let ghost right_view = right@;
            let mut rest = split_all(right.as_str(), sep);
            let ghost rest_dv = rest.deep_view();
            let mut out: Vec<String> = Vec::new();
            out.push(left);
            out.append(&mut rest);
            proof {
                let f = spec_find(s@, sep);
                assert forall|i: int| 0 <= i < out@.len()
                    implies #[trigger] out.deep_view()[i] == spec_split(s@, sep)[i] by {
                    if i > 0 {
                        assert(out@[i]@ == rest_dv[i - 1]);
                        assert(rest_dv[i - 1] == spec_split(right_view, sep)[i - 1]);
                    }
                }
                assert(out.deep_view().len() == spec_split(s@, sep).len());
                assert(out.deep_view() =~= spec_split(s@, sep));
            }
            out
        }
        None => {
            let mut out: Vec<String> = Vec::new();
            out.push(s.to_owned());
            proof {
                assert(out.deep_view() =~= spec_split(s@, sep));
            }
            out
        }
    }
}

/// The pieces joined back with `sep` between them.
pub open spec fn spec_join(parts: Seq<Seq<char>>, sep: char) -> Seq<char>
    decreases parts.len(),
{
    if parts.len() == 0 {
        Seq::empty()
    } else if parts.len() == 1 {
        parts[0]
    } else {
        parts[0] + seq![sep] + spec_join(parts.subrange(1, parts.len() as int), sep)
    }
}

/// Join `parts` with the single-character separator `sep`.
pub fn join(parts: &Vec<String>, sep: &str) -> (r: String)
    requires
        sep@.len() == 1,
    ensures
        r@ == spec_join(parts.deep_view(), sep@[0]),
{
    let mut out = String::new();
    let n = parts.len();
    let mut i: usize = 0;
    while i < n
        invariant
            n == parts.len(),
            0 <= i <= n,
            sep@.len() == 1,
            i == 0 ==> out@ == Seq::<char>::empty(),
            i > 0 ==> out@ == spec_join(parts.deep_view().subrange(0, i as int), sep@[0])
                + if i < n { seq![sep@[0]] } else { Seq::<char>::empty() },
        decreases n - i,
    {
        proof {
            lemma_join_snoc(parts.deep_view().subrange(0, i + 1 as int), sep@[0]);
            assert(parts.deep_view().subrange(0, i + 1 as int).subrange(0, i as int)
                =~= parts.deep_view().subrange(0, i as int));
        }
        out.append(parts[i].as_str());
        if i + 1 < n {
            out.append(sep);
        }
        i += 1;
        proof {
            assert(out@ =~= spec_join(parts.deep_view().subrange(0, i as int), sep@[0])
                + if i < n { seq![sep@[0]] } else { Seq::<char>::empty() });
        }
    }
    proof {
        if n == 0 {
            assert(out@ =~= spec_join(parts.deep_view(), sep@[0]));
        } else {
            assert(parts.deep_view().subrange(0, n as int) =~= parts.deep_view());
        }
    }
    out
}

/// Appending one more piece extends the join by a separator and that piece.
proof fn lemma_join_snoc(parts: Seq<Seq<char>>, sep: char)
    requires
        parts.len() >= 1,
    ensures
        parts.len() == 1 ==> spec_join(parts, sep) == parts[0],
        parts.len() > 1 ==> spec_join(parts, sep) == spec_join(
            parts.subrange(0, parts.len() - 1),
            sep,
        ) + seq![sep] + parts[parts.len() - 1],
    decreases parts.len(),
{
    if parts.len() > 1 {
        let tail = parts.subrange(1, parts.len() as int);
        lemma_join_snoc(tail, sep);
        let head = parts.subrange(0, parts.len() - 1);
        assert(tail.subrange(0, tail.len() - 1) =~= head.subrange(1, head.len() as int));
        assert(tail[tail.len() - 1] == parts[parts.len() - 1]);
        if parts.len() == 2 {
            assert(spec_join(head, sep) == parts[0]);
            assert(spec_join(parts, sep) =~= spec_join(head, sep) + seq![sep]
                + parts[parts.len() - 1]);
        } else {
            assert(head.len() > 1);
            assert(head[0] == parts[0]);
            assert(spec_join(head, sep) == head[0] + seq![sep]
                + spec_join(head.subrange(1, head.len() as int), sep));
            assert(spec_join(parts, sep) =~= spec_join(head, sep) + seq![sep]
                + parts[parts.len() - 1]);
        }
    }
}

/// The lower-case form of an ASCII letter; other characters are unchanged.
pub open spec fn spec_lower_char(c: char) -> char {
    if 'A' <= c && c <= 'Z' {
        ((c as u8) + 32) as char
    } else {
        c
    }
}

/// `s` mapped character-wise through `spec_lower_char`.
pub open spec fn spec_lower(s: Seq<char>) -> Seq<char> {
    Seq::new(s.len(), |i: int| spec_lower_char(s[i]))
}

/// ASCII lower-case conversion of `s`.
pub fn to_lowercase(s: &str) -> (r: String)
    ensures
        r@ == spec_lower(s@),
{
    let n = s.unicode_len();
    let mut out = String::new();
    let mut i: usize = 0;
    while i < n
        invariant
            n == s@.len(),
            0 <= i <= n,
            out@ =~= spec_lower(s@).subrange(0, i as int),
        decreases n - i,
    {
        let c = s.get_char(i);
        let lc: char = if 'A' <= c && c <= 'Z' {
            ((c as u8) + 32) as char
        } else {
            c
        };
        assert(lc == spec_lower_char(s@[i as int]));
        push_char(&mut out, lc);
        proof {
            assert(out@ =~= spec_lower(s@).subrange(0, i + 1 as int));
        }
        i += 1;
    }
    proof {
        assert(spec_lower(s@).subrange(0, n as int) =~= spec_lower(s@));
    }
    out
}

/// Relies on `String::push`: appends the given character to the end of the
/// string, leaving everything before it unchanged.
pub assume_specification[ String::push ](s: &mut String, c: char)
    ensures
        final(s)@ == old(s)@.push(c),
;

/// Append a single character to `out`.
pub fn push_char(out: &mut String, c: char)
    ensures
        final(out)@ == old(out)@ + seq![c],
{
    out.push(c);
    proof {
        assert(out@ =~= old(out)@ + seq![c]);
    }
}

/// True when `sub` occurs in `s` starting at position `i`.
pub open spec fn spec_match_at(s: Seq<char>, sub: Seq<char>, i: int) -> bool {
    &&& 0 <= i
    &&& i + sub.len() <= s.len()
    &&& s.subrange(i, i + sub.len()) == sub
}

/// True when `sub` occurs somewhere in `s`.
pub open spec fn spec_contains_sub(s: Seq<char>, sub: Seq<char>) -> bool {
    exists|i: int| spec_match_at(s, sub, i)
}

/// Does `sub` occur in `s` starting at `i`?
fn match_at(s: &str, sub: &str, i: usize) -> (r: bool)
    requires
        i + sub@.len() <= s@.len(),
    ensures
        r == spec_match_at(s@, sub@, i as int),
{
    let n = s.unicode_len();
    let m = sub.unicode_len();
    let mut j: usize = 0;
    while j < m
        invariant
            n == s@.len(),
            m == sub@.len(),
            i + m <= n,
            0 <= j <= m,
            forall|k: int| 0 <= k < j ==> s@[i + k] == sub@[k],
        decreases m - j,
    {
        if s.get_char(i + j) != sub.get_char(j) {
            assert(!spec_match_at(s@, sub@, i as int)) by {
                if spec_match_at(s@, sub@, i as int) {
                    assert(s@.subrange(i as int, i + sub@.len())[j as int] == sub@[j as int]);
                }
            }
            return false;
        }
        j += 1;
    }
    proof {
        assert(s@.subrange(i as int, i + sub@.len()) =~= sub@);
    }
    true
}

/// Position of the first occurrence of the substring `sub` in `s`.
pub fn find_sub(s: &str, sub: &str) -> (r: Option<usize>)
    requires
        sub@.len() >= 1,
    ensures
        match r {
            Some(i) => {
                &&& spec_match_at(s@, sub@, i as int)
                &&& forall|j: int| 0 <= j < i ==> !spec_match_at(s@, sub@, j)
            },
            None => !spec_contains_sub(s@, sub@),
        },
{
    let n = s.unicode_len();
    let m = sub.unicode_len();
    if m > n {
        proof {
            assert forall|i: int| !spec_match_at(s@, sub@, i) by {}
        }
        return None;
    }
    let mut i: usize = 0;
    while i <= n - m
        invariant
            n == s@.len(),
            m == sub@.len(),
            1 <= m <= n,
            0 <= i <= n - m + 1,
            forall|j: int| 0 <= j < i ==> !spec_match_at(s@, sub@, j),
        decreases n + 1 - m - i,
    {
        if match_at(s, sub, i) {
            return Some(i);
        }
        i += 1;
    }
    proof {
        assert forall|j: int| !spec_match_at(s@, sub@, j) by {
            if spec_match_at(s@, sub@, j) {
                assert(0 <= j <= n - m);
            }
        }
    }
    None
}

/// True when the substring `sub` occurs in `s`.
pub fn contains_sub(s: &str, sub: &str) -> (r: bool)
    requires
        sub@.len() >= 1,
    ensures
        r == spec_contains_sub(s@, sub@),
{
    match find_sub(s, sub) {
        Some(_) => true,
        None => false,
    }
}

/// The pieces of `s` delimited by the substring `pat`, matching leftmost
/// occurrences first.
pub open spec fn spec_split_by(s: Seq<char>, pat: Seq<char>) -> Seq<Seq<char>>
    decreases s.len(),
{
    if pat.len() == 0 {
        seq![s]
    } else {
        let i = spec_first_match(s, pat);
        if i < 0 {
            seq![s]
        } else if i + pat.len() > s.len() {
            seq![s]
        } else {
            seq![s.subrange(0, i)] + spec_split_by(
                s.subrange(i + pat.len(), s.len() as int),
                pat,
            )
        }
    }
}

/// Index of the leftmost occurrence of `pat` in `s`, or -1.
pub open spec fn spec_first_match(s: Seq<char>, pat: Seq<char>) -> int {
    if spec_contains_sub(s, pat) {
        choose|i: int|
            spec_match_at(s, pat, i) && forall|j: int| 0 <= j < i ==> !spec_match_at(s, pat, j)
    } else {
        -1
    }
}

/// When `pat` occurs in `s`, `spec_first_match` is its leftmost occurrence.
pub proof fn lemma_spec_first_match(s: Seq<char>, pat: Seq<char>)
    requires
        spec_contains_sub(s, pat),
    ensures
        spec_match_at(s, pat, spec_first_match(s, pat)),
        forall|j: int| 0 <= j < spec_first_match(s, pat) ==> !spec_match_at(s, pat, j),
{
    let w = choose|w: int| spec_match_at(s, pat, w);
    assert(0 <= w);
    lemma_exists_first_match(s, pat, w);
}

/// Below any occurrence of `pat` there is a leftmost one.
proof fn lemma_exists_first_match(s: Seq<char>, pat: Seq<char>, w: int)
    requires
        spec_match_at(s, pat, w),
    ensures
        exists|i: int|
            spec_match_at(s, pat, i) && forall|j: int| 0 <= j < i ==> !spec_match_at(s, pat, j),
    decreases w,
{
    if exists|j: int| 0 <= j < w && spec_match_at(s, pat, j) {
        let j = choose|j: int| 0 <= j < w && spec_match_at(s, pat, j);
        lemma_exists_first_match(s, pat, j);
    } else {
        assert(spec_match_at(s, pat, w) && forall|j: int| 0 <= j < w ==> !spec_match_at(
            s,
            pat,
            j,
        ));
    }
}

/// Split `s` at every occurrence of the substring `pat`, leftmost first.
pub fn split_by_sub(s: &str, pat: &str) -> (r: Vec<String>)
    requires
        pat@.len() >= 1,
    ensures
        r.deep_view() == spec_split_by(s@, pat@),
    decreases s@.len(),
{
    match find_sub(s, pat) {
        Some(i) => {
            proof {
                lemma_spec_first_match(s@, pat@);
                let f = spec_first_match(s@, pat@);
                if f < i {
                    assert(!spec_match_at(s@, pat@, f));
                }
                if f > i {
                    assert(!spec_match_at(s@, pat@, i as int));
                }
                assert(f == i);
            }
            let n = s.unicode_len();
            let m = pat.unicode_len();
            let left = substring(s, 0, i);
            let rights = substring(s, i + m, n);
            let ghost right_view = rights@;
            let mut rest = split_by_sub(rights.as_str(), pat);
            let ghost rest_dv = rest.deep_view();
            let mut out: Vec<String> = Vec::new();
            out.push(left);
            out.append(&mut rest);
            proof {
                assert forall|k: int| 0 <= k < out@.len()
                    implies #[trigger] out.deep_view()[k] == spec_split_by(s@, pat@)[k] by {
                    if k > 0 {
                        assert(out@[k]@ == rest_dv[k - 1]);
                        assert(rest_dv[k - 1] == spec_split_by(right_view, pat@)[k - 1]);
                    }
                }
                assert(out.deep_view().len() == spec_split_by(s@, pat@).len());
                assert(out.deep_view() =~= spec_split_by(s@, pat@));
            }
            out
        }
        None => {
            let mut out: Vec<String> = Vec::new();
            out.push(s.to_owned());
            proof {
                if spec_contains_sub(s@, pat@) {
                    lemma_spec_first_match(s@, pat@);
                }
                assert(out.deep_view() =~= spec_split_by(s@, pat@));
            }
            out
        }
    }
}

/// `s` with every occurrence of `pat` removed, scanning left to right.
pub open spec fn spec_remove_all(s: Seq<char>, pat: Seq<char>) -> Seq<char>
    decreases s.len(),
{
    if pat.len() == 0 {
        s
    } else {
        let i = spec_first_match(s, pat);
        if i < 0 {
            s
        } else if i + pat.len() > s.len() {
            s
        } else {
            s.subrange(0, i) + spec_remove_all(s.subrange(i + pat.len(), s.len() as int), pat)
        }
    }
}

/// Remove every occurrence of the substring `pat` from `s`.
pub fn remove_all(s: &str, pat: &str) -> (r: String)
    requires
        pat@.len() >= 1,
    ensures
        r@ == spec_remove_all(s@, pat@),
    decreases s@.len(),
{
    match find_sub(s, pat) {
        Some(i) => {
            proof {
                lemma_spec_first_match(s@, pat@);
                let f = spec_first_match(s@, pat@);
                if f < i {
                    assert(!spec_match_at(s@, pat@, f));
                }
                if f > i {
                    assert(!spec_match_at(s@, pat@, i as int));
                }
                assert(f == i);
            }
            let n = s.unicode_len();
            let m = pat.unicode_len();
            let left = substring(s, 0, i);
            let rights = substring(s, i + m, n);
            let rest = remove_all(rights.as_str(), pat);
            let out = concat2(left.as_str(), rest.as_str());
            out
        }
        None => {
            proof {
                if spec_contains_sub(s@, pat@) {
                    lemma_spec_first_match(s@, pat@);
                }
            }
            s.to_owned()
        }
    }
}

/// True when `c` is a space, tab, carriage return, or newline.
pub open spec fn spec_is_space(c: char) -> bool {
    c == ' ' || c == '\t' || c == '\r' || c == '\n'
}

/// Number of leading characters of `s` that are whitespace.
pub open spec fn spec_trim_start(s: Seq<char>) -> int
    decreases s.len(),
{
    if s.len() == 0 || !spec_is_space(s[0]) {
        0
    } else {
        1 + spec_trim_start(s.subrange(1, s.len() as int))
    }
}

/// `s` with leading and trailing ASCII whitespace removed.
pub open spec fn spec_trim(s: Seq<char>) -> Seq<char> {
    let a = spec_trim_start(s);
    let b = s.len() - spec_trim_start(s.reverse());
    if a <= b {
        s.subrange(a, b)
    } else {
        Seq::empty()
    }
}

/// `spec_trim_start` is in range and characterizes the leading whitespace.
proof fn lemma_trim_start(s: Seq<char>)
    ensures
        0 <= spec_trim_start(s) <= s.len(),
        forall|j: int| 0 <= j < spec_trim_start(s) ==> spec_is_space(s[j]),
        spec_trim_start(s) < s.len() ==> !spec_is_space(s[spec_trim_start(s)]),
    decreases s.len(),
{
    if s.len() > 0 && spec_is_space(s[0]) {
        let t = s.subrange(1, s.len() as int);
        lemma_trim_start(t);
        assert forall|j: int| 1 <= j < spec_trim_start(s) implies spec_is_space(s[j]) by {
            assert(s[j] == t[j - 1]);
        }
    }
}

/// Remove leading and trailing ASCII whitespace from `s`.
pub fn trim(s: &str) -> (r: String)
    ensures
        r@ == spec_trim(s@),
{
    let n = s.unicode_len();
    let mut a: usize = 0;
    while a < n && is_space(s.get_char(a))
        invariant
            n == s@.len(),
            0 <= a <= n,
            forall|j: int| 0 <= j < a ==> spec_is_space(s@[j]),
        decreases n - a,
    {
        a += 1;
    }
    let mut b: usize = n;
    while b > a && is_space(s.get_char(b - 1))
        invariant
            n == s@.len(),
            0 <= a <= b <= n,
            forall|j: int| 0 <= j < a ==> spec_is_space(s@[j]),
            forall|j: int| b <= j < n ==> spec_is_space(s@[j]),
        decreases b,
    {
        b -= 1;
    }
    let r = substring(s, a, b);
    proof {
        lemma_trim_start(s@);
        lemma_trim_start(s@.reverse());
        let sa = spec_trim_start(s@);
        let sb = s@.len() - spec_trim_start(s@.reverse());
        assert forall|j: int| 0 <= j < spec_trim_start(s@.reverse())
            implies spec_is_space(#[trigger] s@[n - 1 - j]) by {
            assert(s@.reverse()[j] == s@[n - 1 - j]);
        }
        if a < b {
            // both scans stopped at non-space characters
            assert(!spec_is_space(s@[a as int]));
            assert(!spec_is_space(s@[b - 1]));
            assert(sa == a) by {
                if sa < a {
                    assert(spec_is_space(s@[sa]));
                }
                if sa > a {
                    assert(spec_is_space(s@[a as int]));
                }
            }
            assert(sb == b) by {
                let rb = spec_trim_start(s@.reverse());
                if rb < n - b {
                    assert(spec_is_space(s@.reverse()[rb])) by {
                        assert(s@.reverse()[rb] == s@[n - 1 - rb]);
                    }
                }
                if rb > n - b {
                    assert(spec_is_space(s@[b - 1])) by {
                        assert(s@.reverse()[n - b] == s@[b - 1]);
                    }
                }
            }
            assert(r@ =~= spec_trim(s@));
        } else {
            // the whole string is whitespace
            assert(a == b);
            assert(forall|j: int| 0 <= j < n ==> spec_is_space(s@[j]));
            if sa <= sb {
                assert(sa == s@.len()) by {
                    if sa < s@.len() {
                        assert(spec_is_space(s@[sa]));
                    }
                }
                assert(r@ =~= spec_trim(s@));
            } else {
                assert(r@ =~= spec_trim(s@));
            }
        }
    }
    r
}

/// Is `c` ASCII whitespace?
fn is_space(c: char) -> (r: bool)
    ensures
        r == spec_is_space(c),
{
    c == ' ' || c == '\t' || c == '\r' || c == '\n'
}

/// True when `a` is lexicographically at most `b` (by character code).
pub open spec fn spec_lex_le(a: Seq<char>, b: Seq<char>) -> bool
    decreases a.len(),
{
    if a.len() == 0 {
        true
    } else if b.len() == 0 {
        false
    } else if a[0] == b[0] {
        spec_lex_le(a.subrange(1, a.len() as int), b.subrange(1, b.len() as int))
    } else {
        (a[0] as int) < (b[0] as int)
    }
}

/// Lexicographic order on strings is total.
pub proof fn lemma_lex_le_total(a: Seq<char>, b: Seq<char>)
    ensures
        spec_lex_le(a, b) || spec_lex_le(b, a),
    decreases a.len(),
{
    if a.len() > 0 && b.len() > 0 {
        if a[0] == b[0] {
            lemma_lex_le_total(
                a.subrange(1, a.len() as int),
                b.subrange(1, b.len() as int),
            );
        } else {
            assert((a[0] as int) != (b[0] as int));
        }
    }
}

/// Compare two strings lexicographically by character code.
pub fn lex_le(a: &str, b: &str) -> (r: bool)
    ensures
        r == spec_lex_le(a@, b@),
    decreases a@.len(),
{
    let na = a.unicode_len();
    let nb = b.unicode_len();
    if na == 0 {
        true
    } else if nb == 0 {
        false
    } else {
        let ca = a.get_char(0);
        let cb = b.get_char(0);
        if ca == cb {
            let ta = a.substring_char(1, na);
            let tb = b.substring_char(1, nb);
            lex_le(ta, tb)
        } else {
            (ca as u32) < (cb as u32)
        }
    }
}

/// Concatenate two strings.
pub fn concat2(a: &str, b: &str) -> (r: String)
    ensures
        r@ == a@ + b@,
{
    let mut out = a.to_owned();
    out.append(b);
    out
}

/// Join two path components with a `/`, mirroring how paths are pushed onto
/// one another: an absolute right side replaces the left side, an empty left
/// side yields the right side, and a trailing `/` is not doubled.
pub open spec fn spec_path_join(a: Seq<char>, b: Seq<char>) -> Seq<char> {
    if b.len() > 0 && b[0] == '/' {
        b
    } else if a.len() == 0 {
        b
    } else if a[a.len() - 1] == '/' {
        a + b
    } else {
        a + seq!['/'] + b
    }
}

/// Join two path components with a `/`.
pub fn path_join(a: &str, b: &str) -> (r: String)
    ensures
        r@ == spec_path_join(a@, b@),
{
    let nb = b.unicode_len();
    let na = a.unicode_len();
    if nb > 0 && b.get_char(0) == '/' {
        b.to_owned()
    } else if na == 0 {
        b.to_owned()
    } else if a.get_char(na - 1) == '/' {
        concat2(a, b)
    } else {
        let mut out = a.to_owned();
        push_char(&mut out, '/');
        out.append(b);
        proof {
            assert(out@ =~= a@ + seq!['/'] + b@);
        }
        out
    }
}

/// The last `/`-separated component of a path, ignoring a trailing slash.
pub open spec fn spec_last_component(s: Seq<char>) -> Seq<char> {
    let t = if s.len() > 0 && s[s.len() - 1] == '/' {
        s.subrange(0, s.len() - 1)
    } else {
        s
    };
    let parts = spec_split(t, '/');
    parts[parts.len() - 1]
}

/// The last `/`-separated component of a path, ignoring a trailing slash.
pub fn last_component(s: &str) -> (r: String)
    ensures
        r@ == spec_last_component(s@),
{
    let n = s.unicode_len();
    let t: String = if n > 0 && s.get_char(n - 1) == '/' {
        substring(s, 0, n - 1)
    } else {
        s.to_owned()
    };
    let parts = split_all(t.as_str(), '/');
    proof {
        lemma_spec_split_len(t@, '/');
    }
    let k = parts.len();
    let r = parts[k - 1].clone();
    proof {
        assert(r@ == parts.deep_view()[k - 1]);
    }
    r
}

} // verus!
