//! The build-identity record.
//!
//! A build is identified by a count of whole minutes since the Unix epoch,
//! measured once at build time. From it the record derives a five-character
//! base-36 build number and a seconds value; a package version string and a
//! source-control revision identifier ride along unchanged.

use vstd::prelude::*;
use crate::codec::{encode, encode_spec, is_u64_src, parse_u64, u64_src_value};

verus! {

/// `m` minutes in seconds, clamped at the largest 64-bit value.
pub open spec fn saturated_seconds(m: u64) -> u64 {
    if 60 * (m as int) <= u64::MAX {
        (60 * (m as int)) as u64
    } else {
        u64::MAX
    }
}

/// Converts minutes to seconds without ever wrapping or failing: past the
/// representable range the result is clamped at the maximum.
pub fn epoch_seconds(minutes: u64) -> (r: u64)
    ensures
        r == saturated_seconds(minutes),
        60 * (minutes as int) <= u64::MAX ==> r == 60 * (minutes as int),
        60 * (minutes as int) > u64::MAX ==> r == u64::MAX,
{
    match minutes.checked_mul(60) {
        Some(s) => s,
        None => u64::MAX,
    }
}

/// Below the clamping boundary the derived seconds value is an exact
/// multiple of 60; the clamped value itself is not, so the overflowing
/// inputs are excluded here.
pub proof fn lemma_epoch_seconds_multiple_of_60(m: u64)
    requires
        60 * (m as int) <= u64::MAX,
    ensures
        saturated_seconds(m) % 60 == 0,
{
}

/// The revision identifier: the first of two sources that is present, or
/// the sentinel `unknown` when neither is.
pub fn resolve_git_sha(primary: Option<String>, secondary: Option<String>) -> (r: String)
    ensures
        match primary {
            Some(p) => r@ == p@,
            None => match secondary {
                Some(s) => r@ == s@,
                None => r@ == "unknown"@,
            },
        },
{
    match primary {
        Some(p) => p,
        None => match secondary {
            Some(s) => s,
            None => String::from_str("unknown"),
        },
    }
}

/// The immutable build-identity record. It is assembled once and only read
/// afterwards; querying it never fails.
pub struct BuildInfo {
    /// Whole minutes since the Unix epoch at build time.
    pub epoch_minutes: u64,
    /// The five-character base-36 encoding of `epoch_minutes`.
    pub build_number: String,
    /// `epoch_minutes` in seconds, clamped rather than wrapped on overflow.
    pub epoch_seconds: u64,
    /// The declared package version, opaque to this core.
    pub semver: String,
    /// The source-control revision, or `unknown`.
    pub git_sha: String,
}

impl BuildInfo {
    /// The record's internal invariant: the build number and the seconds
    /// value are exactly the derivations of the minute count.
    pub open spec fn well_formed(self) -> bool {
        &&& self.build_number@ == encode_spec(self.epoch_minutes as nat)
        &&& self.build_number@.len() == 5
        &&& self.epoch_seconds == saturated_seconds(self.epoch_minutes)
    }

    /// Assembles the record from the raw build-time inputs: the elapsed
    /// minutes source text (an unparseable text counts as zero minutes,
    /// whose build number is the sentinel `00000`), the package version and
    /// the already-resolved revision identifier.
    pub fn from_sources(minutes_src: &str, semver: String, git_sha: String) -> (r: BuildInfo)
        ensures
            r.well_formed(),
            is_u64_src(minutes_src@) ==> r.epoch_minutes == u64_src_value(minutes_src@),
            !is_u64_src(minutes_src@) ==> r.epoch_minutes == 0,
            r.semver@ == semver@,
            r.git_sha@ == git_sha@,
    {
        let minutes: u64 = match parse_u64(minutes_src) {
            Some(m) => m,
            None => 0,
        };
        let build_number = encode(minutes);
        let seconds = epoch_seconds(minutes);
        BuildInfo {
            epoch_minutes: minutes,
            build_number,
            epoch_seconds: seconds,
            semver,
            git_sha,
        }
    }
}

} // verus!
