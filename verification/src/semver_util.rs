//! Semantic versions, as far as the migration checks read them: the numeric
//! major/minor/patch triple.  Parsing is done by the `semver` crate; the
//! triple's ordering is this library's own, verified code.

use vstd::prelude::*;

verus! {

/// The numeric components of a semantic-version string, when the string is a
/// valid semantic version; which strings parse, and to what, is decided by
/// the semver grammar, which this library does not restate.
pub uninterp spec fn parsed_sem_ver(s: Seq<char>) -> Option<(u64, u64, u64)>;

/// Relies on semver::Version::parse: whether the string is a valid semantic
/// version, and its numeric major/minor/patch components when it is.  The
/// result depends on the string's characters alone.
#[verifier::external_body]
pub(crate) fn parse_sem_ver_components(text: &str) -> (r: Option<(u64, u64, u64)>)
    ensures
        r == parsed_sem_ver(text@),
{
    match semver::Version::parse(text) {
        Ok(v) => Some((v.major, v.minor, v.patch)),
        Err(_) => None,
    }
}

/// The numeric part of a semantic version.
#[derive(Clone, Copy, Debug, PartialEq, Eq, Structural)]
pub struct SemVer {
    pub major: u64,
    pub minor: u64,
    pub patch: u64,
}

/// Numeric version ordering: by major, then minor, then patch.
pub open spec fn sem_ver_gt(a: SemVer, b: SemVer) -> bool {
    if a.major != b.major {
        a.major > b.major
    } else if a.minor != b.minor {
        a.minor > b.minor
    } else {
        a.patch > b.patch
    }
}

impl SemVer {
    /// Parses the numeric components of a semantic-version string.
    pub fn parse(text: &str) -> (r: Option<SemVer>)
        ensures
            match r {
                Some(v) => parsed_sem_ver(text@) == Some((v.major, v.minor, v.patch)),
                None => parsed_sem_ver(text@) is None,
            },
    {
        match parse_sem_ver_components(text) {
            Some((major, minor, patch)) => Some(SemVer { major, minor, patch }),
            None => None,
        }
    }

    /// Decides whether this version is strictly newer than the other.
    pub fn newer_than(&self, other: &SemVer) -> (r: bool)
        ensures
            r == sem_ver_gt(*self, *other),
    {
        if self.major != other.major {
            self.major > other.major
        } else if self.minor != other.minor {
            self.minor > other.minor
        } else {
            self.patch > other.patch
        }
    }
}

} // verus!
