//! Semantic versions: a version as plain values, its text, and its precedence.
//! Parsing and the precedence of pre-release and build identifiers are left to
//! the `semver` crate; everything else is decided here.

use crate::text::{decimal, push_decimal, same_text};
use vstd::prelude::*;
use vstd::string::*;

verus! {

/// A semantic version. `pre` and `build` are empty where the version has no
/// pre-release or build part; neither holds its leading `-` or `+`.
#[derive(Clone, Debug)]
pub struct Version {
    pub major: u64,
    pub minor: u64,
    pub patch: u64,
    pub pre: String,
    pub build: String,
}

/// What a version holds, as mathematical values.
pub struct VersionView {
    pub major: nat,
    pub minor: nat,
    pub patch: nat,
    pub pre: Seq<char>,
    pub build: Seq<char>,
}

impl View for Version {
    type V = VersionView;

    open spec fn view(&self) -> VersionView {
        VersionView {
            major: self.major as nat,
            minor: self.minor as nat,
            patch: self.patch as nat,
            pre: self.pre@,
            build: self.build@,
        }
    }
}

/// How one version stands to another.
#[derive(Clone, Copy, Debug, PartialEq, Eq, Structural)]
pub enum Precedence {
    Lower,
    Same,
    Higher,
}

/// A precedence as a sign: -1, 0 or 1.
pub open spec fn sign_of(p: Precedence) -> int {
    match p {
        Precedence::Lower => -1,
        Precedence::Same => 0,
        Precedence::Higher => 1,
    }
}

/// What `semver::Version::parse` makes of a text: the version's five parts,
/// or nothing where the text is no semantic version.
pub uninterp spec fn semver_parse(text: Seq<char>) -> Option<VersionView>;

/// How `semver::Prerelease` orders two pre-release texts, as a sign; nothing
/// where one of them is no pre-release identifier.
pub uninterp spec fn prerelease_order(left: Seq<char>, right: Seq<char>) -> Option<int>;

/// How `semver::BuildMetadata` orders two build texts, as a sign; nothing where
/// one of them is no build identifier.
pub uninterp spec fn build_order(left: Seq<char>, right: Seq<char>) -> Option<int>;

/// Calls `semver::Version::parse` and copies the five parts of its result.
/// Trusted: the result is what `semver_parse` names for this text.
#[verifier::external_body]
fn parse_with_semver(text: &str) -> (out: Option<Version>)
    ensures
        out matches Some(v) ==> semver_parse(text@) == Some(v@),
        out is None ==> semver_parse(text@) is None,
{
    match semver::Version::parse(text) {
        Ok(v) => Some(
            Version {
                major: v.major,
                minor: v.minor,
                patch: v.patch,
                pre: v.pre.as_str().to_string(),
                build: v.build.as_str().to_string(),
            },
        ),
        Err(_) => None,
    }
}

/// Builds two `semver::Prerelease` values and compares them with their `Ord`.
/// Trusted: the result is what `prerelease_order` names for the two texts.
#[verifier::external_body]
fn order_prereleases(left: &str, right: &str) -> (out: Option<Precedence>)
    ensures
        out matches Some(p) ==> prerelease_order(left@, right@) == Some(sign_of(p)),
        out is None ==> prerelease_order(left@, right@) is None,
{
    match (semver::Prerelease::new(left), semver::Prerelease::new(right)) {
        (Ok(l), Ok(r)) => Some(
            match l.cmp(&r) {
                std::cmp::Ordering::Less => Precedence::Lower,
                std::cmp::Ordering::Equal => Precedence::Same,
                std::cmp::Ordering::Greater => Precedence::Higher,
            },
        ),
        _ => None,
    }
}

/// Builds two `semver::BuildMetadata` values and compares them with their
/// `Ord`. Trusted: the result is what `build_order` names for the two texts.
#[verifier::external_body]
fn order_builds(left: &str, right: &str) -> (out: Option<Precedence>)
    ensures
        out matches Some(p) ==> build_order(left@, right@) == Some(sign_of(p)),
        out is None ==> build_order(left@, right@) is None,
{
    match (semver::BuildMetadata::new(left), semver::BuildMetadata::new(right)) {
        (Ok(l), Ok(r)) => Some(
            match l.cmp(&r) {
                std::cmp::Ordering::Less => Precedence::Lower,
                std::cmp::Ordering::Equal => Precedence::Same,
                std::cmp::Ordering::Greater => Precedence::Higher,
            },
        ),
        _ => None,
    }
}

/// The sign of the difference of two numbers.
pub open spec fn number_order(left: nat, right: nat) -> int {
    if left < right {
        -1
    } else if left == right {
        0
    } else {
        1
    }
}

/// The precedence of two pre-release parts. A version without a pre-release
/// part stands above one with it; two pre-release parts go by
/// `prerelease_order`.
pub open spec fn pre_order(left: Seq<char>, right: Seq<char>) -> Option<int> {
    if left.len() == 0 {
        if right.len() == 0 {
            Some(0)
        } else {
            Some(1)
        }
    } else if right.len() == 0 {
        Some(-1)
    } else {
        prerelease_order(left, right)
    }
}

/// The precedence of two build parts. Two versions without a build part are
/// the same in this; any other two go by `build_order`.
pub open spec fn build_part_order(left: Seq<char>, right: Seq<char>) -> Option<int> {
    if left.len() == 0 && right.len() == 0 {
        Some(0)
    } else {
        build_order(left, right)
    }
}

/// The precedence of two versions, as a sign: by major, minor and patch
/// number, then by pre-release part, then by build part. Nothing where the
/// numbers are equal and a part that must decide is no identifier.
pub open spec fn version_order(left: VersionView, right: VersionView) -> Option<int> {
    if left.major != right.major {
        Some(number_order(left.major, right.major))
    } else if left.minor != right.minor {
        Some(number_order(left.minor, right.minor))
    } else if left.patch != right.patch {
        Some(number_order(left.patch, right.patch))
    } else if pre_order(left.pre, right.pre) != Some(0int) {
        pre_order(left.pre, right.pre)
    } else {
        build_part_order(left.build, right.build)
    }
}

/// The text of a version: the three numbers with dots between them, then a
/// hyphen and the pre-release part, then a plus sign and the build part, each
/// only where the part is not empty.
pub open spec fn version_text(v: VersionView) -> Seq<char> {
    decimal(v.major) + seq!['.'] + decimal(v.minor) + seq!['.'] + decimal(v.patch) + (if v.pre.len()
        > 0 {
        seq!['-'] + v.pre
    } else {
        Seq::<char>::empty()
    }) + (if v.build.len() > 0 {
        seq!['+'] + v.build
    } else {
        Seq::<char>::empty()
    })
}

fn order_numbers(left: u64, right: u64) -> (out: Precedence)
    ensures
        sign_of(out) == number_order(left as nat, right as nat),
{
    if left < right {
        Precedence::Lower
    } else if left == right {
        Precedence::Same
    } else {
        Precedence::Higher
    }
}

impl Version {
    /// The version with these three numbers and no pre-release or build part.
    pub fn new(major: u64, minor: u64, patch: u64) -> (out: Version)
        ensures
            out.major == major,
            out.minor == minor,
            out.patch == patch,
            out.pre@.len() == 0,
            out.build@.len() == 0,
    {
        Version { major, minor, patch, pre: String::new(), build: String::new() }
    }

    /// Reads a version from its text; nothing where the text is no semantic
    /// version.
    pub fn parse(text: &str) -> (out: Option<Version>)
        ensures
            out matches Some(v) ==> semver_parse(text@) == Some(v@),
            out is None ==> semver_parse(text@) is None,
    {
        parse_with_semver(text)
    }

    /// How this version stands to another.
    pub fn compare(&self, other: &Version) -> (out: Option<Precedence>)
        ensures
            out matches Some(p) ==> version_order(self@, other@) == Some(sign_of(p)),
            out is None ==> version_order(self@, other@) is None,
    {
        if self.major != other.major {
            return Some(order_numbers(self.major, other.major));
        }
        if self.minor != other.minor {
            return Some(order_numbers(self.minor, other.minor));
        }
        if self.patch != other.patch {
            return Some(order_numbers(self.patch, other.patch));
        }
        let left_release = self.pre.as_str().unicode_len() == 0;
        let right_release = other.pre.as_str().unicode_len() == 0;
        let pre = if left_release {
            if right_release {
                Some(Precedence::Same)
            } else {
                Some(Precedence::Higher)
            }
        } else if right_release {
            Some(Precedence::Lower)
        } else {
            order_prereleases(self.pre.as_str(), other.pre.as_str())
        };
        match pre {
            Some(Precedence::Same) => {
                if self.build.as_str().unicode_len() == 0 && other.build.as_str().unicode_len()
                    == 0 {
                    Some(Precedence::Same)
                } else {
                    order_builds(self.build.as_str(), other.build.as_str())
                }
            },
            _ => pre,
        }
    }

    /// A copy of this version.
    pub fn duplicate(&self) -> (out: Version)
        ensures
            out == *self,
    {
        Version {
            major: self.major,
            minor: self.minor,
            patch: self.patch,
            pre: self.pre.clone(),
            build: self.build.clone(),
        }
    }

    /// Whether two versions hold the same five parts.
    pub fn same(&self, other: &Version) -> (out: bool)
        ensures
            out == (self@ == other@),
    {
        self.major == other.major && self.minor == other.minor && self.patch == other.patch
            && same_text(self.pre.as_str(), other.pre.as_str()) && same_text(
            self.build.as_str(),
            other.build.as_str(),
        )
    }

    /// The text of this version.
    pub fn to_string(&self) -> (out: String)
        ensures
            out@ == version_text(self@),
    {
        let mut out = String::new();
        push_decimal(&mut out, self.major);
        out.push('.');
        push_decimal(&mut out, self.minor);
        out.push('.');
        push_decimal(&mut out, self.patch);
        if self.pre.as_str().unicode_len() > 0 {
            out.push('-');
            out.append(self.pre.as_str());
        }
        if self.build.as_str().unicode_len() > 0 {
            out.push('+');
            out.append(self.build.as_str());
        }
        assert(out@ =~= version_text(self@));
        out
    }
}

} // verus!
