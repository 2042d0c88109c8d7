//! Semantic versions: their mathematical model, their precedence order, and
//! the two conversions between a version and its text.
//!
//! A version is read from text and written back to text by the `semver`
//! crate. The precedence order is stated here as a spec function and the
//! executable comparison is proved against it.

use vstd::prelude::*;
use vstd::utf8::*;

verus! {

/// One dot-separated part of a pre-release tag or of build metadata.
#[derive(Debug, Clone, PartialEq, Eq)]
pub enum Identifier {
    /// A part made of digits only, without a leading zero.
    Numeric(u64),
    /// Any other part.
    AlphaNumeric(String),
}

/// A semantic version.
#[derive(Debug, Clone)]
pub struct Version {
    pub major: u64,
    pub minor: u64,
    pub patch: u64,
    /// The pre-release tag; empty for a release.
    pub pre: Vec<Identifier>,
    /// The build metadata; it takes no part in precedence.
    pub build: Vec<Identifier>,
}

/// What an [`Identifier`] stands for.
pub enum IdentifierModel {
    Numeric(nat),
    AlphaNumeric(Seq<char>),
}

/// What a [`Version`] stands for.
pub struct VersionModel {
    pub major: nat,
    pub minor: nat,
    pub patch: nat,
    pub pre: Seq<IdentifierModel>,
    pub build: Seq<IdentifierModel>,
}

impl View for Identifier {
    type V = IdentifierModel;

    open spec fn view(&self) -> IdentifierModel {
        match self {
            Identifier::Numeric(n) => IdentifierModel::Numeric(*n as nat),
            Identifier::AlphaNumeric(s) => IdentifierModel::AlphaNumeric(s@),
        }
    }
}

impl DeepView for Identifier {
    type V = IdentifierModel;

    open spec fn deep_view(&self) -> IdentifierModel {
        self@
    }
}

impl View for Version {
    type V = VersionModel;

    open spec fn view(&self) -> VersionModel {
        VersionModel {
            major: self.major as nat,
            minor: self.minor as nat,
            patch: self.patch as nat,
            pre: self.pre.deep_view(),
            build: self.build.deep_view(),
        }
    }
}

impl DeepView for Version {
    type V = VersionModel;

    open spec fn deep_view(&self) -> VersionModel {
        self@
    }
}

// ---------------------------------------------------------------------------
// Precedence
// ---------------------------------------------------------------------------

/// Lexicographic order on byte strings, read from position `from` on: at the
/// first position where the two differ the smaller byte decides, and a string
/// that ends first comes first.
pub open spec fn bytes_precede_from(a: Seq<u8>, b: Seq<u8>, from: int) -> bool
    decreases a.len() - from,
{
    if from < 0 || from >= b.len() {
        false
    } else if from >= a.len() {
        true
    } else if a[from] != b[from] {
        a[from] < b[from]
    } else {
        bytes_precede_from(a, b, from + 1)
    }
}

/// Lexicographic order on byte strings.
pub open spec fn bytes_precede(a: Seq<u8>, b: Seq<u8>) -> bool {
    bytes_precede_from(a, b, 0)
}

/// Order of two identifiers: numbers by value, texts by their bytes, and a
/// number before any text.
pub open spec fn identifier_precedes(a: IdentifierModel, b: IdentifierModel) -> bool {
    match (a, b) {
        (IdentifierModel::Numeric(x), IdentifierModel::Numeric(y)) => x < y,
        (IdentifierModel::Numeric(_), IdentifierModel::AlphaNumeric(_)) => true,
        (IdentifierModel::AlphaNumeric(_), IdentifierModel::Numeric(_)) => false,
        (IdentifierModel::AlphaNumeric(s), IdentifierModel::AlphaNumeric(t)) => bytes_precede(
            encode_utf8(s),
            encode_utf8(t),
        ),
    }
}

/// Lexicographic order on identifier lists, read from position `from` on.
pub open spec fn identifiers_precede_from(
    a: Seq<IdentifierModel>,
    b: Seq<IdentifierModel>,
    from: int,
) -> bool
    decreases a.len() - from,
{
    if from < 0 || from >= b.len() {
        false
    } else if from >= a.len() {
        true
    } else if a[from] != b[from] {
        identifier_precedes(a[from], b[from])
    } else {
        identifiers_precede_from(a, b, from + 1)
    }
}

/// Lexicographic order on identifier lists: a tag with fewer parts comes
/// first when all of its parts agree with the other's.
pub open spec fn identifiers_precede(a: Seq<IdentifierModel>, b: Seq<IdentifierModel>) -> bool {
    identifiers_precede_from(a, b, 0)
}

/// Semantic-version precedence, strictly: `a` comes before `b`.
///
/// Major, minor and patch decide in that order. Among versions that agree on
/// all three, one with a pre-release tag comes before the one without, and two
/// tags are compared part by part. Build metadata is not looked at.
pub open spec fn version_precedes(a: VersionModel, b: VersionModel) -> bool {
    if a.major != b.major {
        a.major < b.major
    } else if a.minor != b.minor {
        a.minor < b.minor
    } else if a.patch != b.patch {
        a.patch < b.patch
    } else if a.pre.len() == 0 {
        false
    } else if b.pre.len() == 0 {
        true
    } else {
        identifiers_precede(a.pre, b.pre)
    }
}

/// Two versions that precedence cannot tell apart: they differ at most in
/// their build metadata.
pub open spec fn same_precedence(a: VersionModel, b: VersionModel) -> bool {
    &&& a.major == b.major
    &&& a.minor == b.minor
    &&& a.patch == b.patch
    &&& a.pre == b.pre
}

// ---------------------------------------------------------------------------
// The order is a strict total order
// ---------------------------------------------------------------------------

proof fn lemma_bytes_irreflexive(a: Seq<u8>, from: int)
    ensures
        !bytes_precede_from(a, a, from),
    decreases a.len() - from,
{
    if 0 <= from < a.len() {
        lemma_bytes_irreflexive(a, from + 1);
    }
}

proof fn lemma_bytes_transitive(a: Seq<u8>, b: Seq<u8>, c: Seq<u8>, from: int)
    requires
        bytes_precede_from(a, b, from),
        bytes_precede_from(b, c, from),
    ensures
        bytes_precede_from(a, c, from),
    decreases a.len() - from,
{
    if from < a.len() && a[from] == b[from] && b[from] == c[from] {
        lemma_bytes_transitive(a, b, c, from + 1);
    }
}

proof fn lemma_bytes_total(a: Seq<u8>, b: Seq<u8>, from: int)
    requires
        0 <= from <= a.len(),
        from <= b.len(),
        !bytes_precede_from(a, b, from),
        !bytes_precede_from(b, a, from),
    ensures
        a.len() == b.len(),
        forall|j: int| from <= j < a.len() ==> a[j] == b[j],
    decreases a.len() - from,
{
    if from < a.len() && from < b.len() {
        lemma_bytes_total(a, b, from + 1);
    }
}

/// No identifier comes before itself.
pub proof fn lemma_identifier_irreflexive(a: IdentifierModel)
    ensures
        !identifier_precedes(a, a),
{
    if let IdentifierModel::AlphaNumeric(s) = a {
        lemma_bytes_irreflexive(encode_utf8(s), 0);
    }
}

/// The order of identifiers is transitive.
pub proof fn lemma_identifier_transitive(
    a: IdentifierModel,
    b: IdentifierModel,
    c: IdentifierModel,
)
    requires
        identifier_precedes(a, b),
        identifier_precedes(b, c),
    ensures
        identifier_precedes(a, c),
{
    match (a, b, c) {
        (
            IdentifierModel::AlphaNumeric(s),
            IdentifierModel::AlphaNumeric(t),
            IdentifierModel::AlphaNumeric(u),
        ) => {
            lemma_bytes_transitive(encode_utf8(s), encode_utf8(t), encode_utf8(u), 0);
        },
        _ => {},
    }
}

/// Of two different identifiers one comes before the other.
pub proof fn lemma_identifier_total(a: IdentifierModel, b: IdentifierModel)
    ensures
        identifier_precedes(a, b) || identifier_precedes(b, a) || a == b,
{
    match (a, b) {
        (IdentifierModel::AlphaNumeric(s), IdentifierModel::AlphaNumeric(t)) => {
            let x = encode_utf8(s);
            let y = encode_utf8(t);
            if !bytes_precede(x, y) && !bytes_precede(y, x) {
                lemma_bytes_total(x, y, 0);
                assert(x =~= y);
                encode_utf8_decode_utf8(s);
                encode_utf8_decode_utf8(t);
            }
        },
        _ => {},
    }
}

proof fn lemma_identifiers_irreflexive(a: Seq<IdentifierModel>, from: int)
    ensures
        !identifiers_precede_from(a, a, from),
    decreases a.len() - from,
{
    if 0 <= from < a.len() {
        lemma_identifiers_irreflexive(a, from + 1);
    }
}

proof fn lemma_identifiers_transitive(
    a: Seq<IdentifierModel>,
    b: Seq<IdentifierModel>,
    c: Seq<IdentifierModel>,
    from: int,
)
    requires
        identifiers_precede_from(a, b, from),
        identifiers_precede_from(b, c, from),
    ensures
        identifiers_precede_from(a, c, from),
    decreases a.len() - from,
{
    if from < a.len() {
        if a[from] == b[from] && b[from] == c[from] {
            lemma_identifiers_transitive(a, b, c, from + 1);
        } else if a[from] != b[from] && b[from] != c[from] {
            lemma_identifier_transitive(a[from], b[from], c[from]);
            lemma_identifier_irreflexive(a[from]);
        }
    }
}

proof fn lemma_identifiers_total(a: Seq<IdentifierModel>, b: Seq<IdentifierModel>, from: int)
    requires
        0 <= from <= a.len(),
        from <= b.len(),
        !identifiers_precede_from(a, b, from),
        !identifiers_precede_from(b, a, from),
    ensures
        a.len() == b.len(),
        forall|j: int| from <= j < a.len() ==> a[j] == b[j],
    decreases a.len() - from,
{
    if from < a.len() && from < b.len() {
        lemma_identifier_total(a[from], b[from]);
        lemma_identifiers_total(a, b, from + 1);
    }
}

/// No version comes before itself, nor before one of the same precedence.
pub proof fn lemma_precedes_irreflexive(a: VersionModel, b: VersionModel)
    requires
        same_precedence(a, b),
    ensures
        !version_precedes(a, b),
{
    lemma_identifiers_irreflexive(a.pre, 0);
}

/// Precedence is transitive.
pub proof fn lemma_precedes_transitive(a: VersionModel, b: VersionModel, c: VersionModel)
    requires
        version_precedes(a, b),
        version_precedes(b, c),
    ensures
        version_precedes(a, c),
{
    if a.major == b.major && b.major == c.major && a.minor == b.minor && b.minor == c.minor
        && a.patch == b.patch && b.patch == c.patch && c.pre.len() > 0 {
        lemma_identifiers_transitive(a.pre, b.pre, c.pre, 0);
    }
}

/// Precedence is total: of two versions one comes first, or they have the
/// same precedence.
pub proof fn lemma_precedes_total(a: VersionModel, b: VersionModel)
    ensures
        version_precedes(a, b) || version_precedes(b, a) || same_precedence(a, b),
{
    if a.major == b.major && a.minor == b.minor && a.patch == b.patch && a.pre.len() > 0
        && b.pre.len() > 0 {
        if !identifiers_precede(a.pre, b.pre) && !identifiers_precede(b.pre, a.pre) {
            lemma_identifiers_total(a.pre, b.pre, 0);
            assert(a.pre =~= b.pre);
        }
    } else if a.major == b.major && a.minor == b.minor && a.patch == b.patch && a.pre.len() == 0
        && b.pre.len() == 0 {
        assert(a.pre =~= b.pre);
    }
}

/// Precedence is asymmetric: two versions never come before each other.
pub proof fn lemma_precedes_asymmetric(a: VersionModel, b: VersionModel)
    requires
        version_precedes(a, b),
    ensures
        !version_precedes(b, a),
{
    if version_precedes(b, a) {
        lemma_precedes_transitive(a, b, a);
        lemma_precedes_irreflexive(a, a);
    }
}

/// "Not after" is transitive: if `a` is not after `b` and `b` is not after
/// `c`, then `a` is not after `c`.
pub proof fn lemma_not_after_transitive(a: VersionModel, b: VersionModel, c: VersionModel)
    requires
        !version_precedes(b, a),
        !version_precedes(c, b),
    ensures
        !version_precedes(c, a),
{
    if version_precedes(c, a) {
        lemma_precedes_total(a, b);
        if version_precedes(a, b) {
            lemma_precedes_transitive(c, a, b);
        }
    }
}

// ---------------------------------------------------------------------------
// Executable comparison
// ---------------------------------------------------------------------------

fn bytes_before(a: &[u8], b: &[u8]) -> (r: bool)
    ensures
        r == bytes_precede(a@, b@),
{
    let mut i: usize = 0;
    while i < a.len() && i < b.len()
        invariant
            i <= a.len(),
            i <= b.len(),
            bytes_precede(a@, b@) == bytes_precede_from(a@, b@, i as int),
        decreases a.len() - i,
    {
        if a[i] != b[i] {
            return a[i] < b[i];
        }
        i += 1;
    }
    i < b.len()
}

impl Identifier {
    /// Whether the two identifiers are the same.
    pub fn same(&self, other: &Identifier) -> (r: bool)
        ensures
            r == (self@ == other@),
    {
        match (self, other) {
            (Identifier::Numeric(x), Identifier::Numeric(y)) => *x == *y,
            (Identifier::AlphaNumeric(s), Identifier::AlphaNumeric(t)) => *s == *t,
            _ => false,
        }
    }

    /// Whether `self` comes strictly before `other`.
    pub fn precedes(&self, other: &Identifier) -> (r: bool)
        ensures
            r == identifier_precedes(self@, other@),
    {
        match (self, other) {
            (Identifier::Numeric(x), Identifier::Numeric(y)) => *x < *y,
            (Identifier::Numeric(_), Identifier::AlphaNumeric(_)) => true,
            (Identifier::AlphaNumeric(_), Identifier::Numeric(_)) => false,
            (Identifier::AlphaNumeric(s), Identifier::AlphaNumeric(t)) => bytes_before(
                s.as_str().as_bytes(),
                t.as_str().as_bytes(),
            ),
        }
    }
}

fn identifiers_same(a: &Vec<Identifier>, b: &Vec<Identifier>) -> (r: bool)
    ensures
        r == (a.deep_view() == b.deep_view()),
{
    if a.len() != b.len() {
        assert(a.deep_view().len() != b.deep_view().len());
        return false;
    }
    let mut i: usize = 0;
    while i < a.len()
        invariant
            i <= a.len(),
            a.len() == b.len(),
            forall|j: int| 0 <= j < i ==> a.deep_view()[j] == b.deep_view()[j],
        decreases a.len() - i,
    {
        if !a[i].same(&b[i]) {
            assert(a.deep_view()[i as int] != b.deep_view()[i as int]);
            return false;
        }
        i += 1;
    }
    assert(a.deep_view() =~= b.deep_view());
    true
}

fn identifiers_before(a: &Vec<Identifier>, b: &Vec<Identifier>) -> (r: bool)
    ensures
        r == identifiers_precede(a.deep_view(), b.deep_view()),
{
    let mut i: usize = 0;
    while i < a.len() && i < b.len()
        invariant
            i <= a.len(),
            i <= b.len(),
            identifiers_precede(a.deep_view(), b.deep_view()) == identifiers_precede_from(
                a.deep_view(),
                b.deep_view(),
                i as int,
            ),
        decreases a.len() - i,
    {
        if !a[i].same(&b[i]) {
            return a[i].precedes(&b[i]);
        }
        i += 1;
    }
    i < b.len()
}

impl Version {
    /// The release `major.minor.patch`, with no pre-release tag and no build
    /// metadata.
    pub fn new(major: u64, minor: u64, patch: u64) -> (v: Version)
        ensures
            v@ == (VersionModel {
                major: major as nat,
                minor: minor as nat,
                patch: patch as nat,
                pre: Seq::empty(),
                build: Seq::empty(),
            }),
    {
        let v = Version { major, minor, patch, pre: Vec::new(), build: Vec::new() };
        assert(v@.build =~= Seq::empty());
        v
    }

    /// Whether `self` comes strictly before `other` in precedence.
    pub fn precedes(&self, other: &Version) -> (r: bool)
        ensures
            r == version_precedes(self@, other@),
    {
        if self.major != other.major {
            self.major < other.major
        } else if self.minor != other.minor {
            self.minor < other.minor
        } else if self.patch != other.patch {
            self.patch < other.patch
        } else if self.pre.len() == 0 {
            false
        } else if other.pre.len() == 0 {
            true
        } else {
            identifiers_before(&self.pre, &other.pre)
        }
    }

    /// Whether the two versions have the same precedence.
    pub fn same_precedence(&self, other: &Version) -> (r: bool)
        ensures
            r == same_precedence(self@, other@),
    {
        self.major == other.major && self.minor == other.minor && self.patch == other.patch
            && identifiers_same(&self.pre, &other.pre)
    }
}

// ---------------------------------------------------------------------------
// Reading and writing a version
// ---------------------------------------------------------------------------

/// The version that `semver::Version::parse` reads from `text`, or `None`
/// where it reports an error.
pub uninterp spec fn semver_parse(text: Seq<char>) -> Option<VersionModel>;

/// The text that `semver::Version` writes for `version` through `Display`.
pub uninterp spec fn semver_text(version: VersionModel) -> Seq<char>;

/// Calls `semver::Version::parse` and copies the fields of what it returns.
///
/// Trusted: the result is what that function reads from `text`. It reports a
/// text that it cannot read as an error and does not panic; the error's own
/// message is dropped.
#[verifier::external_body]
fn parse_semver(text: &str) -> (parsed: Option<Version>)
    ensures
        parsed.deep_view() == semver_parse(text@),
{
    let v = match semver::Version::parse(text) {
        Ok(v) => v,
        Err(_) => return None,
    };
    let own = |i: semver::Identifier| match i {
        semver::Identifier::Numeric(n) => Identifier::Numeric(n),
        semver::Identifier::AlphaNumeric(s) => Identifier::AlphaNumeric(s),
    };
    let pre = v.pre.into_iter().map(own).collect();
    let build = v.build.into_iter().map(own).collect();
    Some(Version { major: v.major, minor: v.minor, patch: v.patch, pre, build })
}

/// Builds a `semver::Version` with the same fields and calls `to_string` on it.
///
/// Trusted: the result is the text that `semver` writes for that version.
#[verifier::external_body]
fn render_semver(version: &Version) -> (text: String)
    ensures
        text@ == semver_text(version@),
{
    let outside = |i: &Identifier| match i {
        Identifier::Numeric(n) => semver::Identifier::Numeric(*n),
        Identifier::AlphaNumeric(s) => semver::Identifier::AlphaNumeric(s.clone()),
    };
    let pre = version.pre.iter().map(outside).collect();
    let build = version.build.iter().map(outside).collect();
    let (major, minor, patch) = (version.major, version.minor, version.patch);
    semver::Version { major, minor, patch, pre, build }.to_string()
}

impl Version {
    /// Reads a version from `text`; `None` where `text` is not a semantic
    /// version.
    pub fn parse(text: &str) -> (parsed: Option<Version>)
        ensures
            parsed.deep_view() == semver_parse(text@),
    {
        parse_semver(text)
    }

    /// The canonical text of the version.
    pub fn to_text(&self) -> (text: String)
        ensures
            text@ == semver_text(self@),
    {
        render_semver(self)
    }
}

} // verus!
