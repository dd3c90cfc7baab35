//! Semantic versions as the session protocol uses them: parsing, precedence
//! and the textual form that travels on the wire.
//!
//! Parsing and precedence are the work of the `semver` crate. The numeric part
//! of the precedence is stated here in full; the order among pre-release and
//! build identifiers is known only by name.

use crate::text::{decimal, push_decimal};
use semver::{BuildMetadata, Prerelease};
use std::cmp::Ordering;
use vstd::prelude::*;
use vstd::string::StringExecFns;

verus! {

/// A semantic version. `pre` and `build` hold the pre-release and build
/// identifiers without their leading `-` and `+`; an empty text means that
/// the part is absent.
#[derive(Debug, Clone, PartialEq, Eq)]
pub struct Version {
    pub major: u64,
    pub minor: u64,
    pub patch: u64,
    pub pre: String,
    pub build: String,
}

/// The mathematical value of a [`Version`].
pub struct VersionView {
    pub major: u64,
    pub minor: u64,
    pub patch: u64,
    pub pre: Seq<char>,
    pub build: Seq<char>,
}

impl View for Version {
    type V = VersionView;

    open spec fn view(&self) -> VersionView {
        VersionView {
            major: self.major,
            minor: self.minor,
            patch: self.patch,
            pre: self.pre@,
            build: self.build@,
        }
    }
}

/// What `semver::Version::parse` makes of a text: the numbers and the two
/// identifier texts of the version it reads, or nothing where it rejects the
/// text.
pub uninterp spec fn parsed_version(text: Seq<char>) -> Option<(u64, u64, u64, Seq<char>, Seq<char>)>;

/// How `semver` orders two versions whose numbers are equal, by their
/// pre-release and build identifiers: negative, zero or positive as the first
/// precedes, equals or follows the second. A text that `semver` does not
/// accept as an identifier counts as the absent one.
pub uninterp spec fn suffix_order(
    a_pre: Seq<char>,
    a_build: Seq<char>,
    b_pre: Seq<char>,
    b_build: Seq<char>,
) -> i8;

/// The version that the parts read by the parser make up.
pub open spec fn version_of_parts(p: (u64, u64, u64, Seq<char>, Seq<char>)) -> VersionView {
    VersionView { major: p.0, minor: p.1, patch: p.2, pre: p.3, build: p.4 }
}

/// Whether two versions agree on their major, minor and patch numbers.
pub open spec fn same_numbers(a: VersionView, b: VersionView) -> bool {
    a.major == b.major && a.minor == b.minor && a.patch == b.patch
}

/// Precedence of two versions: by major, then minor, then patch number, and
/// among versions that agree on all three by [`suffix_order`].
pub open spec fn version_order(a: VersionView, b: VersionView) -> i8 {
    if a.major != b.major {
        if a.major < b.major {
            -1i8
        } else {
            1i8
        }
    } else if a.minor != b.minor {
        if a.minor < b.minor {
            -1i8
        } else {
            1i8
        }
    } else if a.patch != b.patch {
        if a.patch < b.patch {
            -1i8
        } else {
            1i8
        }
    } else {
        suffix_order(a.pre, a.build, b.pre, b.build)
    }
}

/// Whether `a` does not follow `b` in precedence.
pub open spec fn version_le(a: VersionView, b: VersionView) -> bool {
    version_order(a, b) <= 0
}

/// The one of two versions that comes first; `a` where neither does.
pub open spec fn version_min(a: VersionView, b: VersionView) -> VersionView {
    if version_le(a, b) {
        a
    } else {
        b
    }
}

/// The text of a version: `major.minor.patch`, then `-` and the pre-release
/// identifiers if there are any, then `+` and the build identifiers if there
/// are any.
pub open spec fn version_text(v: VersionView) -> Seq<char> {
    decimal(v.major as nat).push('.') + decimal(v.minor as nat).push('.') + decimal(
        v.patch as nat,
    ) + (if v.pre.len() > 0 {
        seq!['-'] + v.pre
    } else {
        Seq::<char>::empty()
    }) + (if v.build.len() > 0 {
        seq!['+'] + v.build
    } else {
        Seq::<char>::empty()
    })
}

/// Calls `semver::Version::parse`. The result is the version that `semver`
/// reads from `text`, field by field, and `None` exactly where it reports an
/// error.
#[verifier::external_body]
fn semver_parse(text: &str) -> (r: Option<Version>)
    ensures
        match r {
            Some(v) => parsed_version(text@) == Some(
                (v.major, v.minor, v.patch, v.pre@, v.build@),
            ),
            None => parsed_version(text@) is None,
        },
{
    match semver::Version::parse(text) {
        Ok(v) => Some(
            Version {
                major: v.major,
                minor: v.minor,
                patch: v.patch,
                pre: v.pre.as_str().to_string(),
                build: v.build.as_str().to_string(),
            },
        ),
        Err(_) => None,
    }
}

/// Calls the ordering of `semver::Version` on the two versions. `semver`
/// compares major, minor and patch numbers in turn and only then the
/// pre-release and build identifiers; the contract states the numeric part and
/// names the rest.
#[verifier::external_body]
fn semver_order(a: &Version, b: &Version) -> (r: i8)
    ensures
        same_numbers(a@, b@) ==> r == suffix_order(a.pre@, a.build@, b.pre@, b.build@),
        !same_numbers(a@, b@) ==> r == version_order(a@, b@),
{
    let lhs = semver::Version {
        major: a.major, minor: a.minor, patch: a.patch,
        pre: Prerelease::new(&a.pre).unwrap_or_default(),
        build: BuildMetadata::new(&a.build).unwrap_or_default(),
    };
    let rhs = semver::Version {
        major: b.major, minor: b.minor, patch: b.patch,
        pre: Prerelease::new(&b.pre).unwrap_or_default(),
        build: BuildMetadata::new(&b.build).unwrap_or_default(),
    };
    match lhs.cmp(&rhs) {
        Ordering::Less => -1,
        Ordering::Equal => 0,
        Ordering::Greater => 1,
    }
}

impl Version {
    /// A release version: no pre-release and no build identifiers.
    pub fn new(major: u64, minor: u64, patch: u64) -> (v: Version)
        ensures
            v@ == (VersionView {
                major,
                minor,
                patch,
                pre: Seq::<char>::empty(),
                build: Seq::<char>::empty(),
            }),
    {
        Version { major, minor, patch, pre: String::new(), build: String::new() }
    }

    /// Reads a version from its text, as `semver` does.
    pub fn parse(text: &str) -> (r: Option<Version>)
        ensures
            match r {
                Some(v) => parsed_version(text@) == Some(
                    (v.major, v.minor, v.patch, v.pre@, v.build@),
                ),
                None => parsed_version(text@) is None,
            },
    {
        semver_parse(text)
    }

    /// A copy of this version.
    pub fn duplicate(&self) -> (v: Version)
        ensures
            v@ == self@,
    {
        Version {
            major: self.major,
            minor: self.minor,
            patch: self.patch,
            pre: self.pre.clone(),
            build: self.build.clone(),
        }
    }

    /// Whether two versions are the same in every part.
    pub fn same(&self, other: &Version) -> (r: bool)
        ensures
            r == (self@ == other@),
    {
        let r = self.major == other.major && self.minor == other.minor && self.patch
            == other.patch && self.pre == other.pre && self.build == other.build;
        proof {
            if r {
                assert(self@.pre =~= other@.pre);
                assert(self@.build =~= other@.build);
            }
        }
        r
    }

    /// Precedence against another version: negative, zero or positive.
    pub fn order(&self, other: &Version) -> (r: i8)
        ensures
            r == version_order(self@, other@),
    {
        semver_order(self, other)
    }

    /// Whether this version does not follow `other`.
    pub fn le(&self, other: &Version) -> (r: bool)
        ensures
            r == version_le(self@, other@),
    {
        semver_order(self, other) <= 0
    }

    /// The earlier of two versions; `self` where neither precedes the other.
    pub fn min(self, other: Version) -> (r: Version)
        ensures
            r@ == version_min(self@, other@),
    {
        if self.le(&other) {
            self
        } else {
            other
        }
    }

    /// The text of this version.
    pub fn to_text(&self) -> (s: String)
        ensures
            s@ == version_text(self@),
    {
        let mut s = String::new();
        push_decimal(&mut s, self.major);
        s.push('.');
        push_decimal(&mut s, self.minor);
        s.push('.');
        push_decimal(&mut s, self.patch);
        let ghost numbers = s@;
        assert(numbers =~= decimal(self.major as nat).push('.') + decimal(
            self.minor as nat,
        ).push('.') + decimal(self.patch as nat));
        if !self.pre.as_str().is_empty() {
            s.push('-');
            s.append(self.pre.as_str());
            assert(s@ =~= numbers + (seq!['-'] + self.pre@));
        } else {
            assert(s@ =~= numbers + Seq::<char>::empty());
        }
        let ghost with_pre = s@;
        if !self.build.as_str().is_empty() {
            s.push('+');
            s.append(self.build.as_str());
            assert(s@ =~= with_pre + (seq!['+'] + self.build@));
        } else {
            assert(s@ =~= with_pre + Seq::<char>::empty());
        }
        s
    }
}

/// Versions that differ in a number are ordered by the first number in which
/// they differ, whatever their identifiers.
pub proof fn order_follows_numbers(a: VersionView, b: VersionView)
    requires
        (a.major, a.minor, a.patch) != (b.major, b.minor, b.patch),
    ensures
        version_le(a, b) <==> (a.major < b.major || (a.major == b.major && (a.minor < b.minor || (
        a.minor == b.minor && a.patch < b.patch)))),
{
}

/// The earlier of two versions is one of the two, and it is the first unless
/// the second strictly precedes it.
pub proof fn min_is_one_of_both(a: VersionView, b: VersionView)
    ensures
        version_min(a, b) == a || version_min(a, b) == b,
        version_min(a, b) == b ==> (a == b || version_order(a, b) > 0),
        version_le(a, b) ==> version_min(a, b) == a,
{
}

} // verus!
