//! Semantic versions: how a release tag is read and how two releases compare.
//!
//! Reading a tag and ordering pre-release and build labels is the work of the
//! `semver` crate. The numbers of a version are compared here.

use crate::text::{decimal, decimal_text};
use vstd::prelude::*;
use vstd::string::StringExecFns;

verus! {

/// The mathematical value of a version: three numbers and two labels. An
/// empty label is an absent one.
pub struct SemVerView {
    pub major: u64,
    pub minor: u64,
    pub patch: u64,
    pub pre: Seq<char>,
    pub build: Seq<char>,
}

/// What `semver::Version::parse` makes of a text: the parts of the version
/// that it reads, or `None` where the text is not a semantic version.
pub uninterp spec fn parsed_version(text: Seq<char>) -> Option<SemVerView>;

/// Whether `semver` puts the first pair of labels (pre-release, build) at or
/// before the second pair, for two versions with the same three numbers.
/// `None` where one of the four texts is not a label that `semver` accepts.
pub uninterp spec fn labels_at_most(
    a_pre: Seq<char>,
    a_build: Seq<char>,
    b_pre: Seq<char>,
    b_build: Seq<char>,
) -> Option<bool>;

/// Both labels are of the form that `semver` accepts: the pair can be
/// compared, and is at or before itself.
pub open spec fn labels_valid(pre: Seq<char>, build: Seq<char>) -> bool {
    labels_at_most(pre, build, pre, build) == Some(true)
}

/// What `semver` promises of one compared pair `a`, `b` whose answer was
/// `r`. As of any total order: the opposite question has an answer too, one
/// of the two holds, and the pair can be chained with any third element on
/// either side. And as `semver` documents: a version with a pre-release
/// label comes before the same version without one.
pub open spec fn order_facts(
    a_pre: Seq<char>,
    a_build: Seq<char>,
    b_pre: Seq<char>,
    b_build: Seq<char>,
    r: Option<bool>,
) -> bool {
    &&& r is Some <==> labels_valid(a_pre, a_build) && labels_valid(b_pre, b_build)
    &&& r == Some(false) ==> labels_at_most(b_pre, b_build, a_pre, a_build) == Some(true)
    &&& r is Some && a_pre.len() > 0 && b_pre.len() == 0 ==> r == Some(true)
    &&& r is Some && a_pre.len() == 0 && b_pre.len() > 0 ==> r == Some(false)
    &&& forall|p: Seq<char>, q: Seq<char>|
        r == Some(true) && #[trigger] labels_at_most(b_pre, b_build, p, q) == Some(true)
            ==> labels_at_most(a_pre, a_build, p, q) == Some(true)
    &&& forall|p: Seq<char>, q: Seq<char>|
        r == Some(true) && #[trigger] labels_at_most(p, q, a_pre, a_build) == Some(true)
            ==> labels_at_most(p, q, b_pre, b_build) == Some(true)
    &&& forall|p: Seq<char>, q: Seq<char>|
        r == Some(false) && #[trigger] labels_at_most(a_pre, a_build, p, q) == Some(true)
            ==> labels_at_most(b_pre, b_build, p, q) == Some(true)
    &&& forall|p: Seq<char>, q: Seq<char>|
        r == Some(false) && #[trigger] labels_at_most(p, q, b_pre, b_build) == Some(true)
            ==> labels_at_most(p, q, a_pre, a_build) == Some(true)
}

/// Calls `semver::Version::parse` and hands the parts of the version out as
/// plain values. Trusted: the result is a function of the text alone, and the
/// labels of a version that was read are labels that `semver` accepts.
#[verifier::external_body]
fn parse_parts(text: &str) -> (r: Option<(u64, u64, u64, String, String)>)
    ensures
        parsed_version(text@) == match r {
            Some(p) => Some(
                SemVerView { major: p.0, minor: p.1, patch: p.2, pre: p.3@, build: p.4@ },
            ),
            None => None,
        },
        r matches Some(p) ==> labels_valid(p.3@, p.4@),
{
    match semver::Version::parse(text) {
        Ok(v) => Some(
            (v.major, v.minor, v.patch, v.pre.as_str().to_string(), v.build.as_str().to_string()),
        ),
        Err(_) => None,
    }
}

/// Calls `semver::Version::new`, which makes a release without labels.
/// Trusted: the numbers are kept, both labels are empty, and `semver`
/// accepts the empty label.
#[verifier::external_body]
fn release_parts(major: u64, minor: u64, patch: u64) -> (r: (u64, u64, u64, String, String))
    ensures
        r.0 == major,
        r.1 == minor,
        r.2 == patch,
        r.3@ == Seq::<char>::empty(),
        r.4@ == Seq::<char>::empty(),
        labels_valid(r.3@, r.4@),
{
    let v = semver::Version::new(major, minor, patch);
    (v.major, v.minor, v.patch, v.pre.as_str().to_string(), v.build.as_str().to_string())
}

/// Asks `semver` whether one version is at or before another, for two
/// versions that carry the given labels and the same numbers (`<=` of
/// `semver::Version`). `None` where `semver` refuses one of the labels.
/// Trusted: the answer is a function of the four labels alone; the
/// comparison is a total order on the labels that `semver` accepts; and a
/// pre-release comes before the release. `order_facts` spells this out for
/// the pair at hand.
#[verifier::external_body]
fn compare_labels(a_pre: &str, a_build: &str, b_pre: &str, b_build: &str) -> (r: Option<bool>)
    ensures
        r == labels_at_most(a_pre@, a_build@, b_pre@, b_build@),
        order_facts(a_pre@, a_build@, b_pre@, b_build@, r),
{
    let a = (semver::Prerelease::new(a_pre), semver::BuildMetadata::new(a_build));
    let b = (semver::Prerelease::new(b_pre), semver::BuildMetadata::new(b_build));
    match (a, b) {
        ((Ok(pre), Ok(build)), (Ok(other_pre), Ok(other_build))) => {
            let x = semver::Version { major: 0, minor: 0, patch: 0, pre, build };
            let y = semver::Version { major: 0, minor: 0, patch: 0, pre: other_pre, build: other_build };
            Some(x <= y)
        },
        _ => None,
    }
}

/// A semantic version: `MAJOR.MINOR.PATCH`, with an optional pre-release
/// label after `-` and optional build metadata after `+`.
#[derive(Debug)]
pub struct SemVer {
    major: u64,
    minor: u64,
    patch: u64,
    pre: String,
    build: String,
}

impl View for SemVer {
    type V = SemVerView;

    closed spec fn view(&self) -> SemVerView {
        SemVerView {
            major: self.major,
            minor: self.minor,
            patch: self.patch,
            pre: self.pre@,
            build: self.build@,
        }
    }
}

/// Semantic-version precedence, `a <= b`: the three numbers decide from left
/// to right; where they are equal the labels decide, as `semver` orders them.
pub open spec fn precedes_eq(a: SemVerView, b: SemVerView) -> bool {
    if a.major != b.major {
        a.major < b.major
    } else if a.minor != b.minor {
        a.minor < b.minor
    } else if a.patch != b.patch {
        a.patch < b.patch
    } else {
        labels_at_most(a.pre, a.build, b.pre, b.build) == Some(true)
    }
}

/// The three numbers of two versions are the same.
pub open spec fn same_numbers(a: SemVerView, b: SemVerView) -> bool {
    a.major == b.major && a.minor == b.minor && a.patch == b.patch
}

/// A pre-release comes before its release: with the same numbers, a version
/// that has a pre-release label precedes one that has none, and not the
/// other way round.
pub open spec fn release_outranks(a: SemVerView, b: SemVerView, r: bool) -> bool {
    &&& same_numbers(a, b) && a.pre.len() > 0 && b.pre.len() == 0 ==> r
    &&& same_numbers(a, b) && a.pre.len() == 0 && b.pre.len() > 0 ==> !r
}

/// What one comparison `a <= b` with answer `r` lets a caller conclude about
/// any third version `c`: precedence chains through the compared pair.
pub open spec fn chains(a: SemVerView, b: SemVerView, r: bool) -> bool {
    &&& forall|c: SemVerView| r && #[trigger] precedes_eq(b, c) ==> precedes_eq(a, c)
    &&& forall|c: SemVerView| r && #[trigger] precedes_eq(c, a) ==> precedes_eq(c, b)
    &&& forall|c: SemVerView| !r && #[trigger] precedes_eq(a, c) ==> precedes_eq(b, c)
    &&& forall|c: SemVerView| !r && #[trigger] precedes_eq(c, b) ==> precedes_eq(c, a)
}

/// A version as text: `MAJOR.MINOR.PATCH`, then `-` and the pre-release
/// label if there is one, then `+` and the build metadata if there is any.
pub open spec fn version_text(v: SemVerView) -> Seq<char> {
    decimal(v.major as nat) + seq!['.'] + decimal(v.minor as nat) + seq!['.'] + decimal(
        v.patch as nat,
    ) + (if v.pre.len() > 0 {
        seq!['-'] + v.pre
    } else {
        Seq::empty()
    }) + (if v.build.len() > 0 {
        seq!['+'] + v.build
    } else {
        Seq::empty()
    })
}

/// The value of a version that can exist at run time: its labels are ones
/// that `semver` accepts.
pub open spec fn well_formed(v: SemVerView) -> bool {
    labels_valid(v.pre, v.build)
}

impl SemVer {
    /// Holds of every version: its labels are ones that `semver` accepts.
    #[verifier::type_invariant]
    pub open spec fn accepted(&self) -> bool {
        well_formed(self@)
    }

    /// Reads a version from a text such as a registry tag. `None` where the
    /// text is not a semantic version.
    pub fn parse(text: &str) -> (r: Option<SemVer>)
        ensures
            match r {
                Some(v) => parsed_version(text@) == Some(v@) && well_formed(v@),
                None => parsed_version(text@) is None,
            },
    {
        match parse_parts(text) {
            Some(p) => Some(SemVer { major: p.0, minor: p.1, patch: p.2, pre: p.3, build: p.4 }),
            None => None,
        }
    }

    /// The release `major.minor.patch`, without labels.
    pub fn new(major: u64, minor: u64, patch: u64) -> (v: SemVer)
        ensures
            v@ == (SemVerView {
                major,
                minor,
                patch,
                pre: Seq::<char>::empty(),
                build: Seq::<char>::empty(),
            }),
            well_formed(v@),
    {
        let p = release_parts(major, minor, patch);
        SemVer { major: p.0, minor: p.1, patch: p.2, pre: p.3, build: p.4 }
    }

    pub fn major(&self) -> (n: u64)
        ensures
            n == self@.major,
    {
        self.major
    }

    pub fn minor(&self) -> (n: u64)
        ensures
            n == self@.minor,
    {
        self.minor
    }

    pub fn patch(&self) -> (n: u64)
        ensures
            n == self@.patch,
    {
        self.patch
    }

    /// The pre-release label, empty for a release.
    pub fn pre(&self) -> (s: &str)
        ensures
            s@ == self@.pre,
    {
        self.pre.as_str()
    }

    /// The build metadata, empty where there is none.
    pub fn build(&self) -> (s: &str)
        ensures
            s@ == self@.build,
    {
        self.build.as_str()
    }

    /// `self <= other` in semantic-version precedence.
    pub fn at_most(&self, other: &SemVer) -> (r: bool)
        ensures
            r == precedes_eq(self@, other@),
            !r ==> precedes_eq(other@, self@),
            precedes_eq(self@, self@),
            precedes_eq(other@, other@),
            chains(self@, other@, r),
            release_outranks(self@, other@, r),
    {
        proof {
            use_type_invariant(self);
            use_type_invariant(other);
        }
        if self.major != other.major {
            self.major < other.major
        } else if self.minor != other.minor {
            self.minor < other.minor
        } else if self.patch != other.patch {
            self.patch < other.patch
        } else {
            match compare_labels(
                self.pre.as_str(),
                self.build.as_str(),
                other.pre.as_str(),
                other.build.as_str(),
            ) {
                Some(r) => r,
                None => false,
            }
        }
    }

    /// The version as text, as it stands in a tag.
    pub fn to_text(&self) -> (s: String)
        ensures
            s@ == version_text(self@),
    {
        proof {
            reveal_strlit(".");
            reveal_strlit("-");
            reveal_strlit("+");
            assert("."@ =~= seq!['.']);
            assert("-"@ =~= seq!['-']);
            assert("+"@ =~= seq!['+']);
        }
        let mut s = decimal_text(self.major);
        s.append(".");
        s.append(decimal_text(self.minor).as_str());
        s.append(".");
        s.append(decimal_text(self.patch).as_str());
        let ghost numbers = s@;
        if !self.pre.as_str().is_empty() {
            s.append("-");
            s.append(self.pre.as_str());
        }
        assert(s@ =~= numbers + (if self@.pre.len() > 0 {
            seq!['-'] + self@.pre
        } else {
            Seq::empty()
        }));
        let ghost labelled = s@;
        if !self.build.as_str().is_empty() {
            s.append("+");
            s.append(self.build.as_str());
        }
        assert(s@ =~= labelled + (if self@.build.len() > 0 {
            seq!['+'] + self@.build
        } else {
            Seq::empty()
        }));
        s
    }

    /// A copy of this version.
    pub fn duplicate(&self) -> (v: SemVer)
        ensures
            v@ == self@,
            well_formed(v@),
    {
        proof {
            use_type_invariant(self);
        }
        SemVer {
            major: self.major,
            minor: self.minor,
            patch: self.patch,
            pre: self.pre.clone(),
            build: self.build.clone(),
        }
    }
}

} // verus!
