//! Reading the toolchain's version report: the report is scanned line by line
//! for its first `release:` line, whose payload is the toolchain's semantic
//! version. A report without such a line, or with a payload the version
//! grammar rejects, is unparsable output.

use vstd::prelude::*;
use vstd::string::StrSliceExecFns;
use crate::version::{
    find_char, find_char_str, lemma_find_char, parse_version, spec_parse_version,
    ToolchainVersion, VersionError,
};

verus! {

/// The marker that introduces the release line of a version report.
pub open spec fn release_prefix() -> Seq<char> {
    seq!['r', 'e', 'l', 'e', 'a', 's', 'e', ':', ' ']
}

/// The payload of the first line of `s` that starts with `"release: "`,
/// or `None` when no line does.
pub open spec fn spec_release_payload(s: Seq<char>) -> Option<Seq<char>>
    decreases s.len(),
{
    let k = find_char(s, '\n');
    let line = if 0 <= k < s.len() { s.take(k) } else { s };
    if line.len() >= 9 && line.take(9) == release_prefix() {
        Some(line.skip(9))
    } else if 0 <= k < s.len() {
        spec_release_payload(s.skip(k + 1))
    } else {
        None
    }
}

/// Whether `line` starts with the release marker.
fn starts_with_release(line: &str) -> (b: bool)
    requires
        line@.len() >= 9,
    ensures
        b == (line@.take(9) == release_prefix()),
{
    let b = line.get_char(0) == 'r' && line.get_char(1) == 'e' && line.get_char(2) == 'l'
        && line.get_char(3) == 'e' && line.get_char(4) == 'a' && line.get_char(5) == 's'
        && line.get_char(6) == 'e' && line.get_char(7) == ':' && line.get_char(8) == ' ';
    proof {
        if b {
            assert(line@.take(9) =~= release_prefix());
        } else {
            assert(line@.take(9) != release_prefix());
        }
    }
    b
}

/// Parses a whole version report: finds the first `release:` line and reads
/// its payload as a semantic version. Any failure is unparsable output.
pub fn parse_version_report(s: &str) -> (r: Result<ToolchainVersion, VersionError>)
    ensures
        spec_release_payload(s@) is None
            ==> r == Err::<ToolchainVersion, VersionError>(VersionError::UnparsableOutput),
        spec_release_payload(s@) matches Some(pl) ==> (spec_parse_version(pl) is None
            ==> r == Err::<ToolchainVersion, VersionError>(VersionError::UnparsableOutput)),
        spec_release_payload(s@) matches Some(pl) ==> (spec_parse_version(pl) matches Some(t)
            ==> r matches Ok(v) && v.major == t.0 && v.minor == t.1 && v.patch == t.2
                && v.pre@ == t.3 && v.build@ == t.4 && v.valid()),
    decreases s@.len(),
{
    let len = s.unicode_len();
    let k = find_char_str(s, '\n');
    proof {
        lemma_find_char(s@, '\n');
    }
    let line: &str = if k < len { s.substring_char(0, k) } else { s };
    let llen = line.unicode_len();
    if llen >= 9 && starts_with_release(line) {
        let payload = line.substring_char(9, llen);
        proof {
            assert(payload@ =~= line@.skip(9));
        }
        parse_version(payload)
    } else if k < len {
        let rest = s.substring_char(k + 1, len);
        proof {
            assert(rest@ =~= s@.skip(k as int + 1));
        }
        parse_version_report(rest)
    } else {
        Err(VersionError::UnparsableOutput)
    }
}

} // verus!
