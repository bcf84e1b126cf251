//! Dependency licenses.
//!
//! A license string such as `Apache-2.0` or `GPL-3.0 AND MIT` is classified
//! into a fixed set of SPDX-style license families, keeping the version
//! suffix; anything unrecognized is kept verbatim as a custom license.
//! Classification is case-insensitive and total.

use vstd::prelude::*;

use crate::text;
use crate::text::{spec_contains_sub, spec_find, spec_lower, spec_split_by, spec_trim};

verus! {

/// A dependency license: a fixed family with its version, or a custom
/// license kept verbatim.
#[derive(Debug, Clone, PartialEq, Eq)]
pub enum License {
    /// Apache (1.0, 1.1, 2.0)
    Apache(String),
    /// MIT
    MIT,
    /// GPL (1.0, 2.0, 3.0)
    GPL(String),
    /// LGPL (2.0, 2.1, 3.0)
    LGPL(String),
    /// AGPL (1.0, 3.0)
    AGPL(String),
    /// Mozilla Public License (1.0, 1.1, 2.0)
    MPL(String),
    /// BSD (2-clause, 3-clause, 4-clause)
    BSD(String),
    /// CC0
    CC0,
    /// ISC
    ISC,
    /// Custom license
    Custom(String),
    /// Unknown license
    Unknown,
}

/// The mathematical content of a license value.
pub ghost enum LicenseView {
    /// Apache with version.
    Apache(Seq<char>),
    /// MIT.
    MIT,
    /// GPL with version.
    GPL(Seq<char>),
    /// LGPL with version.
    LGPL(Seq<char>),
    /// AGPL with version.
    AGPL(Seq<char>),
    /// MPL with version.
    MPL(Seq<char>),
    /// BSD with version.
    BSD(Seq<char>),
    /// CC0.
    CC0,
    /// ISC.
    ISC,
    /// A custom license string.
    Custom(Seq<char>),
    /// Unknown.
    Unknown,
}

impl View for License {
    type V = LicenseView;

    open spec fn view(&self) -> LicenseView {
        match self {
            License::Apache(v) => LicenseView::Apache(v@),
            License::MIT => LicenseView::MIT,
            License::GPL(v) => LicenseView::GPL(v@),
            License::LGPL(v) => LicenseView::LGPL(v@),
            License::AGPL(v) => LicenseView::AGPL(v@),
            License::MPL(v) => LicenseView::MPL(v@),
            License::BSD(v) => LicenseView::BSD(v@),
            License::CC0 => LicenseView::CC0,
            License::ISC => LicenseView::ISC,
            License::Custom(v) => LicenseView::Custom(v@),
            License::Unknown => LicenseView::Unknown,
        }
    }
}

impl DeepView for License {
    type V = LicenseView;

    open spec fn deep_view(&self) -> LicenseView {
        self.view()
    }
}

/// The version suffix of a lowered license token: what follows the first
/// `-`, trimmed; the whole token when it has no `-`.
pub open spec fn spec_dash_version(low: Seq<char>) -> Seq<char> {
    let f = spec_find(low, '-');
    if f >= 0 {
        spec_trim(low.subrange(f + 1, low.len() as int))
    } else {
        low
    }
}

/// Does `s` start with the prefix `pre`?
pub open spec fn spec_starts_with(s: Seq<char>, pre: Seq<char>) -> bool {
    s.len() >= pre.len() && s.subrange(0, pre.len() as int) == pre
}

/// How a license token classifies, after lower-casing: the family is
/// picked by containment (`apache`, `mit`) or prefix (`gpl`, `lgpl`,
/// `agpl`, `mpl`, `bsd`) or exact match (`cc0`, `isc`), in that order, and
/// versioned families carry their dash-version; anything else is custom.
pub open spec fn spec_license_of(s: Seq<char>) -> LicenseView {
    let low = spec_lower(s);
    if spec_contains_sub(low, "apache"@) {
        LicenseView::Apache(spec_dash_version(low))
    } else if spec_contains_sub(low, "mit"@) {
        LicenseView::MIT
    } else if spec_starts_with(low, "gpl"@) {
        LicenseView::GPL(spec_dash_version(low))
    } else if spec_starts_with(low, "lgpl"@) {
        LicenseView::LGPL(spec_dash_version(low))
    } else if spec_starts_with(low, "agpl"@) {
        LicenseView::AGPL(spec_dash_version(low))
    } else if spec_starts_with(low, "mpl"@) {
        LicenseView::MPL(spec_dash_version(low))
    } else if spec_starts_with(low, "bsd"@) {
        LicenseView::BSD(spec_dash_version(low))
    } else if low == "cc0"@ {
        LicenseView::CC0
    } else if low == "isc"@ {
        LicenseView::ISC
    } else {
        LicenseView::Custom(low)
    }
}

/// Does `s` start with `pre`?
fn starts_with_sub(s: &str, pre: &str) -> (r: bool)
    ensures
        r == spec_starts_with(s@, pre@),
{
    let n = s.unicode_len();
    let m = pre.unicode_len();
    if m > n {
        return false;
    }
    let head = s.substring_char(0, m);
    text::str_eq(head, pre)
}

/// The dash-version of a lowered token.
fn dash_version(low: &str) -> (r: String)
    ensures
        r@ == spec_dash_version(low@),
{
    match text::split_once(low, '-') {
        Some((_, version)) => text::trim(version.as_str()),
        None => low.to_owned(),
    }
}

impl License {
    /// Classify a license token, case-insensitively.
    pub fn parse(value: &str) -> (r: Self)
        ensures
            r@ == spec_license_of(value@),
    {
        let lows = text::to_lowercase(value);
        let low = lows.as_str();
        proof {
            reveal_strlit("apache");
            reveal_strlit("mit");
        }
        if text::contains_sub(low, "apache") {
            License::Apache(dash_version(low))
        } else if text::contains_sub(low, "mit") {
            License::MIT
        } else if starts_with_sub(low, "gpl") {
            License::GPL(dash_version(low))
        } else if starts_with_sub(low, "lgpl") {
            License::LGPL(dash_version(low))
        } else if starts_with_sub(low, "agpl") {
            License::AGPL(dash_version(low))
        } else if starts_with_sub(low, "mpl") {
            License::MPL(dash_version(low))
        } else if starts_with_sub(low, "bsd") {
            License::BSD(dash_version(low))
        } else if text::str_eq(low, "cc0") {
            License::CC0
        } else if text::str_eq(low, "isc") {
            License::ISC
        } else {
            License::Custom(lows.clone())
        }
    }

    /// Do two licenses have the same family and version?
    pub fn same_as(&self, other: &License) -> (r: bool)
        ensures
            r == (self@ == other@),
    {
        match (self, other) {
            (License::Apache(a), License::Apache(b)) => text::str_eq(a.as_str(), b.as_str()),
            (License::MIT, License::MIT) => true,
            (License::GPL(a), License::GPL(b)) => text::str_eq(a.as_str(), b.as_str()),
            (License::LGPL(a), License::LGPL(b)) => text::str_eq(a.as_str(), b.as_str()),
            (License::AGPL(a), License::AGPL(b)) => text::str_eq(a.as_str(), b.as_str()),
            (License::MPL(a), License::MPL(b)) => text::str_eq(a.as_str(), b.as_str()),
            (License::BSD(a), License::BSD(b)) => text::str_eq(a.as_str(), b.as_str()),
            (License::CC0, License::CC0) => true,
            (License::ISC, License::ISC) => true,
            (License::Custom(a), License::Custom(b)) => text::str_eq(a.as_str(), b.as_str()),
            (License::Unknown, License::Unknown) => true,
            _ => false,
        }
    }
}

impl From<&str> for License {
    /// Same classification as [`License::parse`].
    fn from(value: &str) -> (r: Self)
        ensures
            r@ == spec_license_of(value@),
    {
        License::parse(value)
    }
}

impl vstd::std_specs::convert::FromSpecImpl<&str> for License {
    open spec fn obeys_from_spec() -> bool {
        false
    }

    open spec fn from_spec(v: &str) -> Self {
        arbitrary()
    }
}

impl From<String> for License {
    /// Same classification as [`License::parse`].
    fn from(value: String) -> (r: Self)
        ensures
            r@ == spec_license_of(value@),
    {
        License::parse(value.as_str())
    }
}

impl vstd::std_specs::convert::FromSpecImpl<String> for License {
    open spec fn obeys_from_spec() -> bool {
        false
    }

    open spec fn from_spec(v: String) -> Self {
        arbitrary()
    }
}

impl Default for License {
    /// The unknown license.
    fn default() -> (r: Self)
        ensures
            r@ == LicenseView::Unknown,
    {
        License::Unknown
    }
}

/// What parsing a license list yields: the string is lower-cased; when it
/// holds `and` it is split on `and`, else on `,` when it holds a comma, and
/// each trimmed piece is classified; otherwise the whole string classifies
/// as one license.
pub open spec fn spec_parse_licenses(v: Seq<char>) -> Seq<LicenseView> {
    let low = spec_lower(v);
    if spec_contains_sub(low, "and"@) {
        spec_split_by(low, "and"@).map_values(|p: Seq<char>| spec_license_of(spec_trim(p)))
    } else if spec_contains_sub(low, ","@) {
        spec_split_by(low, ","@).map_values(|p: Seq<char>| spec_license_of(spec_trim(p)))
    } else {
        seq![spec_license_of(low)]
    }
}

/// List of Licenses for a dependency
#[derive(Debug, Clone, PartialEq, Eq)]
pub struct Licenses {
    /// The licenses, in parse order.
    pub licenses: Vec<License>,
}

impl Licenses {
    /// Create a new list of licenses
    pub fn new() -> (r: Self)
        ensures
            r.licenses@.len() == 0,
    {
        Licenses { licenses: Vec::new() }
    }

    /// Push a new license to the list
    pub fn push(&mut self, license: License)
        ensures
            final(self).licenses@ == old(self).licenses@.push(license),
    {
        self.licenses.push(license);
    }

    /// Check if the list of licenses is empty
    pub fn is_empty(&self) -> (r: bool)
        ensures
            r == (self.licenses@.len() == 0),
    {
        self.licenses.len() == 0
    }

    /// Get the length of the list of licenses
    pub fn len(&self) -> (r: usize)
        ensures
            r == self.licenses@.len(),
    {
        self.licenses.len()
    }

    /// Check if the list contains a particular license
    pub fn contains(&self, license: &License) -> (r: bool)
        ensures
            r == exists|i: int|
                0 <= i < self.licenses@.len() && (#[trigger] self.licenses@[i])@ == license@,
    {
        let n = self.licenses.len();
        let mut i: usize = 0;
        while i < n
            invariant
                n == self.licenses@.len(),
                0 <= i <= n,
                forall|j: int| 0 <= j < i ==> (#[trigger] self.licenses@[j])@ != license@,
            decreases n - i,
        {
            if self.licenses[i].same_as(license) {
                return true;
            }
            i += 1;
        }
        false
    }

    /// Parse a string into a list of licenses. It will split the
    /// lower-cased string by `and` or `,`.
    pub fn parse(value: &str) -> (r: Licenses)
        ensures
            r.licenses.deep_view() == spec_parse_licenses(value@),
    {
        let lows = text::to_lowercase(value);
        let low = lows.as_str();
        proof {
            reveal_strlit("and");
            reveal_strlit(",");
        }
        if text::contains_sub(low, "and") {
            Licenses::parse_sep(low, "and")
        } else if text::contains_sub(low, ",") {
            Licenses::parse_sep(low, ",")
        } else {
            let mut licenses = Licenses::new();
            licenses.push(License::parse(low));
            proof {
                assert(licenses.licenses.deep_view() =~= spec_parse_licenses(value@));
            }
            licenses
        }
    }

    /// Split an already lower-cased license list at `sep` and classify each
    /// trimmed piece.
    fn parse_sep(low: &str, sep: &str) -> (r: Licenses)
        requires
            sep@.len() >= 1,
        ensures
            r.licenses.deep_view() == spec_split_by(low@, sep@).map_values(
                |p: Seq<char>| spec_license_of(spec_trim(p)),
            ),
    {
        let parts = text::split_by_sub(low, sep);
        let ghost mapped = spec_split_by(low@, sep@).map_values(
            |p: Seq<char>| spec_license_of(spec_trim(p)),
        );
        let mut licenses = Licenses::new();
        let n = parts.len();
        let mut i: usize = 0;
        while i < n
            invariant
                n == parts@.len(),
                parts.deep_view() == spec_split_by(low@, sep@),
                mapped == spec_split_by(low@, sep@).map_values(
                    |p: Seq<char>| spec_license_of(spec_trim(p)),
                ),
                0 <= i <= n,
                licenses.licenses@.len() == i,
                forall|j: int| 0 <= j < i ==> (#[trigger] licenses.licenses@[j])@ == mapped[j],
            decreases n - i,
        {
            let trimmed = text::trim(parts[i].as_str());
            assert(trimmed@ == spec_trim(parts.deep_view()[i as int]));
            licenses.push(License::parse(trimmed.as_str()));
            i += 1;
        }
        proof {
            assert forall|j: int| 0 <= j < n
                implies #[trigger] licenses.licenses.deep_view()[j] == mapped[j] by {
                assert(licenses.licenses@[j]@ == mapped[j]);
            }
            assert(licenses.licenses.deep_view() =~= mapped);
        }
        licenses
    }

    /// Build a license list by classifying each entry of a vector.
    pub fn from_vec(value: &Vec<&str>) -> (r: Licenses)
        ensures
            r.licenses@.len() == value@.len(),
            forall|i: int| 0 <= i < value@.len()
                ==> (#[trigger] r.licenses@[i])@ == spec_license_of(value@[i]@),
    {
        let mut licenses = Licenses::new();
        let n = value.len();
        let mut i: usize = 0;
        while i < n
            invariant
                n == value@.len(),
                0 <= i <= n,
                licenses.licenses@.len() == i,
                forall|j: int| 0 <= j < i
                    ==> (#[trigger] licenses.licenses@[j])@ == spec_license_of(value@[j]@),
            decreases n - i,
        {
            let entry: &str = value[i];
            licenses.push(License::parse(entry));
            i += 1;
        }
        licenses
    }
}

impl Default for Licenses {
    /// The empty license list.
    fn default() -> (r: Self)
        ensures
            r.licenses@.len() == 0,
    {
        Licenses::new()
    }
}

impl From<&str> for Licenses {
    /// Same parsing as [`Licenses::parse`].
    fn from(value: &str) -> (r: Self)
        ensures
            r.licenses.deep_view() == spec_parse_licenses(value@),
    {
        Licenses::parse(value)
    }
}

impl vstd::std_specs::convert::FromSpecImpl<&str> for Licenses {
    open spec fn obeys_from_spec() -> bool {
        false
    }

    open spec fn from_spec(v: &str) -> Self {
        arbitrary()
    }
}

impl From<String> for Licenses {
    /// Same parsing as [`Licenses::parse`].
    fn from(value: String) -> (r: Self)
        ensures
            r.licenses.deep_view() == spec_parse_licenses(value@),
    {
        Licenses::parse(value.as_str())
    }
}

impl vstd::std_specs::convert::FromSpecImpl<String> for Licenses {
    open spec fn obeys_from_spec() -> bool {
        false
    }

    open spec fn from_spec(v: String) -> Self {
        arbitrary()
    }
}

impl<'a> From<Vec<&'a str>> for Licenses {
    /// Each entry classifies to one license, as [`Licenses::from_vec`].
    fn from(value: Vec<&str>) -> (r: Self)
        ensures
            r.licenses@.len() == value@.len(),
            forall|i: int| 0 <= i < value@.len()
                ==> (#[trigger] r.licenses@[i])@ == spec_license_of(value@[i]@),
    {
        Licenses::from_vec(&value)
    }
}

impl<'a> vstd::std_specs::convert::FromSpecImpl<Vec<&'a str>> for Licenses {
    open spec fn obeys_from_spec() -> bool {
        false
    }

    open spec fn from_spec(v: Vec<&'a str>) -> Self {
        arbitrary()
    }
}

} // verus!
