//! The toolchain version: semantic-version fields captured once per build,
//! their canonical string rendering, and a parser for the version report the
//! toolchain prints. The canonical string omits the prerelease and
//! build-metadata segments entirely when their field is empty.

use vstd::prelude::*;
use vstd::string::StringExecFns;
use vstd::string::StrSliceExecFns;
use crate::fmtnum::{dec_digits, dec_u64_string, is_digit_char, lemma_dec_digits_props, val_of};

verus! {

/// The semantic version of the toolchain active during the build. An empty
/// `pre` or `build` string means the segment is absent, not that it is an
/// empty identifier.
#[derive(Debug, Clone, PartialEq, Eq)]
pub struct ToolchainVersion {
    pub major: u64,
    pub minor: u64,
    pub patch: u64,
    pub pre: String,
    pub build: String,
}

/// Why no toolchain version could be captured. Memoized on first capture and
/// surfaced verbatim to every later version request.
#[derive(Clone, Copy, PartialEq, Eq, Structural, Debug)]
pub enum VersionError {
    /// The version-reporting command was missing or could not be started.
    CommandMissing,
    /// The command ran but exited unsuccessfully.
    CommandFailed,
    /// The command's output was not a well-formed version report.
    UnparsableOutput,
}

/// Characters allowed inside prerelease and build-metadata identifiers.
pub open spec fn is_ident_char(c: char) -> bool {
    is_digit_char(c) || ('a' <= c && c <= 'z') || ('A' <= c && c <= 'Z') || c == '-'
}

/// A numeric identifier: digits only, no leading zero unless it is `"0"`.
pub open spec fn is_numeric_ident(s: Seq<char>) -> bool {
    &&& s.len() > 0
    &&& forall|k: int| 0 <= k < s.len() ==> is_digit_char(#[trigger] s[k])
    &&& (s.len() == 1 || s[0] != '0')
}

/// An alphanumeric identifier: identifier characters with at least one
/// non-digit among them.
pub open spec fn is_alphanumeric_ident(s: Seq<char>) -> bool {
    &&& s.len() > 0
    &&& forall|k: int| 0 <= k < s.len() ==> is_ident_char(#[trigger] s[k])
    &&& exists|k: int| 0 <= k < s.len() && !is_digit_char(#[trigger] s[k])
}

/// A prerelease identifier is numeric or alphanumeric.
pub open spec fn is_prerelease_ident(s: Seq<char>) -> bool {
    is_numeric_ident(s) || is_alphanumeric_ident(s)
}

/// A build-metadata identifier: a nonempty run of identifier characters
/// (leading zeros are allowed here).
pub open spec fn is_build_ident(s: Seq<char>) -> bool {
    &&& s.len() > 0
    &&& forall|k: int| 0 <= k < s.len() ==> is_ident_char(#[trigger] s[k])
}

/// Index of the first occurrence of `c` in `s`, or `s.len()` when absent.
pub open spec fn find_char(s: Seq<char>, c: char) -> int
    decreases s.len(),
{
    if s.len() == 0 {
        0
    } else if s[0] == c {
        0
    } else {
        1 + find_char(s.drop_first(), c)
    }
}

/// `find_char` returns the position of the first occurrence, or the length.
pub proof fn lemma_find_char(s: Seq<char>, c: char)
    ensures
        0 <= find_char(s, c) <= s.len(),
        find_char(s, c) < s.len() ==> s[find_char(s, c)] == c,
        forall|k: int| 0 <= k < find_char(s, c) ==> s[k] != c,
    decreases s.len(),
{
    if s.len() > 0 && s[0] != c {
        lemma_find_char(s.drop_first(), c);
        assert forall|k: int| 0 <= k < find_char(s, c) implies s[k] != c by {
            if k > 0 {
                assert(s.drop_first()[k - 1] == s[k]);
            }
        }
    }
}

/// A nonempty dot-separated list of prerelease identifiers.
pub open spec fn valid_prerelease(s: Seq<char>) -> bool
    decreases s.len(),
{
    let k = find_char(s, '.');
    if 0 <= k < s.len() {
        is_prerelease_ident(s.take(k)) && valid_prerelease(s.skip(k + 1))
    } else {
        is_prerelease_ident(s)
    }
}

/// A nonempty dot-separated list of build-metadata identifiers.
pub open spec fn valid_build(s: Seq<char>) -> bool
    decreases s.len(),
{
    let k = find_char(s, '.');
    if 0 <= k < s.len() {
        is_build_ident(s.take(k)) && valid_build(s.skip(k + 1))
    } else {
        is_build_ident(s)
    }
}

impl ToolchainVersion {
    /// Well-formed fields: the prerelease and build strings are either empty
    /// (absent) or follow the semantic-version grammar.
    pub open spec fn valid(self) -> bool {
        &&& (self.pre@.len() == 0 || valid_prerelease(self.pre@))
        &&& (self.build@.len() == 0 || valid_build(self.build@))
    }
}

/// The canonical rendering `"major.minor.patch[-pre][+build]"`, omitting a
/// segment entirely when its string is empty.
pub open spec fn version_string_spec(v: ToolchainVersion) -> Seq<char> {
    dec_digits(v.major as int) + seq!['.'] + dec_digits(v.minor as int) + seq!['.']
        + dec_digits(v.patch as int)
        + (if v.pre@.len() == 0 { Seq::<char>::empty() } else { seq!['-'] + v.pre@ })
        + (if v.build@.len() == 0 { Seq::<char>::empty() } else { seq!['+'] + v.build@ })
}

/// The canonical version string of `v`.
pub fn version_string(v: &ToolchainVersion) -> (r: String)
    ensures
        r@ == version_string_spec(*v),
{
    let mut s = dec_u64_string(v.major);
    s.append(".");
    let minor = dec_u64_string(v.minor);
    s.append(minor.as_str());
    s.append(".");
    let patch = dec_u64_string(v.patch);
    s.append(patch.as_str());
    if !v.pre.as_str().is_empty() {
        s.append("-");
        s.append(v.pre.as_str());
    }
    if !v.build.as_str().is_empty() {
        s.append("+");
        s.append(v.build.as_str());
    }
    proof {
        reveal_strlit(".");
        reveal_strlit("-");
        reveal_strlit("+");
        assert(s@ =~= version_string_spec(*v));
    }
    s
}

/// When the characters before `i` differ from `c` and the one at `i` (if any)
/// is `c`, then `i` is exactly where `find_char` points.
pub proof fn lemma_find_char_at(s: Seq<char>, c: char, i: int)
    requires
        0 <= i <= s.len(),
        forall|k: int| 0 <= k < i ==> s[k] != c,
        i < s.len() ==> s[i] == c,
    ensures
        find_char(s, c) == if i < s.len() { i } else { s.len() as int },
{
    lemma_find_char(s, c);
}

/// Position of the first occurrence of `c` in `s`, or the length of `s`.
pub fn find_char_str(s: &str, c: char) -> (r: usize)
    ensures
        r == find_char(s@, c),
        r <= s@.len(),
{
    let len = s.unicode_len();
    let mut i: usize = 0;
    while i < len
        invariant
            0 <= i <= len == s@.len(),
            forall|k: int| 0 <= k < i ==> s@[k] != c,
        decreases len - i,
    {
        if s.get_char(i) == c {
            proof {
                lemma_find_char_at(s@, c, i as int);
            }
            return i;
        }
        i += 1;
    }
    proof {
        lemma_find_char_at(s@, c, len as int);
    }
    len
}

/// The value of a digit run is never negative.
proof fn lemma_val_of_nonneg(s: Seq<char>)
    requires
        forall|k: int| 0 <= k < s.len() ==> is_digit_char(#[trigger] s[k]),
    ensures
        val_of(s) >= 0,
    decreases s.len(),
{
    if s.len() > 0 {
        assert(forall|k: int| 0 <= k < s.drop_last().len()
            ==> is_digit_char(#[trigger] s.drop_last()[k]));
        lemma_val_of_nonneg(s.drop_last());
    }
}

/// Reading more digits never shrinks the value.
proof fn lemma_val_of_monotone(s: Seq<char>, i: int)
    requires
        0 <= i <= s.len(),
        forall|k: int| 0 <= k < s.len() ==> is_digit_char(#[trigger] s[k]),
    ensures
        val_of(s.take(i)) <= val_of(s),
    decreases s.len() - i,
{
    if i < s.len() {
        lemma_val_of_monotone(s, i + 1);
        assert(forall|k: int| 0 <= k < s.take(i).len()
            ==> is_digit_char(#[trigger] s.take(i)[k]));
        lemma_val_of_nonneg(s.take(i));
        assert(s.take(i + 1).drop_last() =~= s.take(i));
        assert(s.take(i + 1).last() == s[i]);
    } else {
        assert(s.take(i) =~= s);
    }
}

/// Parses a numeric identifier into a `u64`: `Some` exactly when `s` is a
/// numeric identifier whose value fits.
pub fn parse_u64(s: &str) -> (r: Option<u64>)
    ensures
        r is Some <==> is_numeric_ident(s@) && val_of(s@) <= u64::MAX,
        r matches Some(x) ==> x == val_of(s@),
{
    let len = s.unicode_len();
    if len == 0 {
        return None;
    }
    if len > 1 && s.get_char(0) == '0' {
        return None;
    }
    let mut acc: u64 = 0;
    let mut i: usize = 0;
    while i < len
        invariant
            0 <= i <= len == s@.len(),
            len >= 1,
            len == 1 || s@[0] != '0',
            forall|k: int| 0 <= k < i ==> is_digit_char(#[trigger] s@[k]),
            acc == val_of(s@.take(i as int)),
        decreases len - i,
    {
        let c = s.get_char(i);
        if !(c >= '0' && c <= '9') {
            return None;
        }
        let d: u64 = (c as u32 - 48) as u64;
        proof {
            assert(s@.take(i as int + 1).drop_last() =~= s@.take(i as int));
            assert(s@.take(i as int + 1).last() == s@[i as int]);
        }
        if acc > (u64::MAX - d) / 10 {
            proof {
                assert(val_of(s@.take(i as int + 1)) > u64::MAX);
                if is_numeric_ident(s@) {
                    lemma_val_of_monotone(s@, i as int + 1);
                }
            }
            return None;
        }
        acc = 10 * acc + d;
        i += 1;
    }
    proof {
        assert(s@.take(len as int) =~= s@);
    }
    Some(acc)
}

/// Whether `s` is a single prerelease identifier.
fn check_pre_ident(s: &str) -> (b: bool)
    ensures
        b == is_prerelease_ident(s@),
{
    let len = s.unicode_len();
    if len == 0 {
        return false;
    }
    let mut i: usize = 0;
    let mut nondigit = false;
    while i < len
        invariant
            0 <= i <= len == s@.len(),
            forall|k: int| 0 <= k < i ==> is_ident_char(#[trigger] s@[k]),
            nondigit == exists|k: int| 0 <= k < i && !is_digit_char(#[trigger] s@[k]),
        decreases len - i,
    {
        let c = s.get_char(i);
        let digit = c >= '0' && c <= '9';
        let ident = digit || (c >= 'a' && c <= 'z') || (c >= 'A' && c <= 'Z') || c == '-';
        if !ident {
            return false;
        }
        if !digit {
            nondigit = true;
        }
        i += 1;
    }
    if nondigit {
        return true;
    }
    if len == 1 {
        return true;
    }
    s.get_char(0) != '0'
}

/// Whether `s` is a single build-metadata identifier.
fn check_build_ident(s: &str) -> (b: bool)
    ensures
        b == is_build_ident(s@),
{
    let len = s.unicode_len();
    if len == 0 {
        return false;
    }
    let mut i: usize = 0;
    while i < len
        invariant
            0 <= i <= len == s@.len(),
            forall|k: int| 0 <= k < i ==> is_ident_char(#[trigger] s@[k]),
        decreases len - i,
    {
        let c = s.get_char(i);
        let digit = c >= '0' && c <= '9';
        let ident = digit || (c >= 'a' && c <= 'z') || (c >= 'A' && c <= 'Z') || c == '-';
        if !ident {
            return false;
        }
        i += 1;
    }
    true
}

/// Whether `s` is a dot-separated list of prerelease identifiers.
pub fn check_prerelease(s: &str) -> (b: bool)
    ensures
        b == valid_prerelease(s@),
    decreases s@.len(),
{
    let len = s.unicode_len();
    let k = find_char_str(s, '.');
    proof {
        lemma_find_char(s@, '.');
    }
    if k < len {
        let seg = s.substring_char(0, k);
        if !check_pre_ident(seg) {
            return false;
        }
        let rest = s.substring_char(k + 1, len);
        check_prerelease(rest)
    } else {
        check_pre_ident(s)
    }
}

/// Whether `s` is a dot-separated list of build-metadata identifiers.
pub fn check_build(s: &str) -> (b: bool)
    ensures
        b == valid_build(s@),
    decreases s@.len(),
{
    let len = s.unicode_len();
    let k = find_char_str(s, '.');
    proof {
        lemma_find_char(s@, '.');
    }
    if k < len {
        let seg = s.substring_char(0, k);
        if !check_build_ident(seg) {
            return false;
        }
        let rest = s.substring_char(k + 1, len);
        check_build(rest)
    } else {
        check_build_ident(s)
    }
}

/// What a well-formed version string denotes: major, minor and patch values
/// and the prerelease and build-metadata character runs (empty when absent).
/// `None` when the string does not follow the grammar or a number overflows.
pub open spec fn spec_parse_version(s: Seq<char>) -> Option<(int, int, int, Seq<char>, Seq<char>)> {
    let p = find_char(s, '+');
    let head = if p < s.len() { s.take(p) } else { s };
    let build = if p < s.len() { s.skip(p + 1) } else { Seq::<char>::empty() };
    let q = find_char(head, '-');
    let core = if q < head.len() { head.take(q) } else { head };
    let pre = if q < head.len() { head.skip(q + 1) } else { Seq::<char>::empty() };
    let a = find_char(core, '.');
    if a >= core.len() {
        None
    } else {
        let maj = core.take(a);
        let rest = core.skip(a + 1);
        let b = find_char(rest, '.');
        if b >= rest.len() {
            None
        } else {
            let minor = rest.take(b);
            let patch = rest.skip(b + 1);
            if is_numeric_ident(maj) && val_of(maj) <= u64::MAX
                && is_numeric_ident(minor) && val_of(minor) <= u64::MAX
                && is_numeric_ident(patch) && val_of(patch) <= u64::MAX
                && (p < s.len() ==> valid_build(build))
                && (q < head.len() ==> valid_prerelease(pre))
            {
                Some((val_of(maj), val_of(minor), val_of(patch), pre, build))
            } else {
                None
            }
        }
    }
}

/// Parses a canonical `"major.minor.patch[-pre][+build]"` string. Returns the
/// denoted fields exactly when the grammar accepts the string; every rejected
/// string is an unparsable-output error.
pub fn parse_version(s: &str) -> (r: Result<ToolchainVersion, VersionError>)
    ensures
        spec_parse_version(s@) is None
            ==> r == Err::<ToolchainVersion, VersionError>(VersionError::UnparsableOutput),
        spec_parse_version(s@) matches Some(t) ==> r matches Ok(v) && v.major == t.0
            && v.minor == t.1 && v.patch == t.2 && v.pre@ == t.3 && v.build@ == t.4 && v.valid(),
{
    let len = s.unicode_len();
    let p = find_char_str(s, '+');
    let head: &str = if p < len { s.substring_char(0, p) } else { s };
    let hlen = head.unicode_len();
    let q = find_char_str(head, '-');
    let core: &str = if q < hlen { head.substring_char(0, q) } else { head };
    let clen = core.unicode_len();
    let a = find_char_str(core, '.');
    if a >= clen {
        return Err(VersionError::UnparsableOutput);
    }
    let maj_s = core.substring_char(0, a);
    let rest = core.substring_char(a + 1, clen);
    let rlen = rest.unicode_len();
    let b = find_char_str(rest, '.');
    if b >= rlen {
        return Err(VersionError::UnparsableOutput);
    }
    let min_s = rest.substring_char(0, b);
    let pat_s = rest.substring_char(b + 1, rlen);
    let major = match parse_u64(maj_s) {
        Some(x) => x,
        None => {
            return Err(VersionError::UnparsableOutput);
        },
    };
    let minor = match parse_u64(min_s) {
        Some(x) => x,
        None => {
            return Err(VersionError::UnparsableOutput);
        },
    };
    let patch = match parse_u64(pat_s) {
        Some(x) => x,
        None => {
            return Err(VersionError::UnparsableOutput);
        },
    };
    let build: String = if p < len {
        let bpart = s.substring_char(p + 1, len);
        if !check_build(bpart) {
            return Err(VersionError::UnparsableOutput);
        }
        bpart.to_owned()
    } else {
        String::new()
    };
    let pre: String = if q < hlen {
        let ppart = head.substring_char(q + 1, hlen);
        if !check_prerelease(ppart) {
            return Err(VersionError::UnparsableOutput);
        }
        ppart.to_owned()
    } else {
        String::new()
    };
    let v = ToolchainVersion { major, minor, patch, pre, build };
    proof {
        assert(spec_parse_version(s@) matches Some(t) && v.major == t.0 && v.minor == t.1
            && v.patch == t.2 && v.pre@ == t.3 && v.build@ == t.4);
    }
    Ok(v)
}

/// Every character of a well-formed prerelease run is an identifier
/// character or the dot separator; the run is nonempty.
proof fn lemma_prerelease_chars(s: Seq<char>)
    requires
        valid_prerelease(s),
    ensures
        s.len() > 0,
        forall|k: int| 0 <= k < s.len() ==> is_ident_char(#[trigger] s[k]) || s[k] == '.',
    decreases s.len(),
{
    lemma_find_char(s, '.');
    let kd = find_char(s, '.');
    if 0 <= kd < s.len() {
        lemma_prerelease_chars(s.skip(kd + 1));
        assert forall|k: int| 0 <= k < s.len() implies is_ident_char(s[k]) || s[k] == '.' by {
            if k < kd {
                assert(s.take(kd)[k] == s[k]);
            } else if k > kd {
                assert(s.skip(kd + 1)[k - kd - 1] == s[k]);
            }
        }
    }
}

/// Every character of a well-formed build-metadata run is an identifier
/// character or the dot separator; the run is nonempty.
proof fn lemma_build_chars(s: Seq<char>)
    requires
        valid_build(s),
    ensures
        s.len() > 0,
        forall|k: int| 0 <= k < s.len() ==> is_ident_char(#[trigger] s[k]) || s[k] == '.',
    decreases s.len(),
{
    lemma_find_char(s, '.');
    let kd = find_char(s, '.');
    if 0 <= kd < s.len() {
        lemma_build_chars(s.skip(kd + 1));
        assert forall|k: int| 0 <= k < s.len() implies is_ident_char(s[k]) || s[k] == '.' by {
            if k < kd {
                assert(s.take(kd)[k] == s[k]);
            } else if k > kd {
                assert(s.skip(kd + 1)[k - kd - 1] == s[k]);
            }
        }
    }
}

/// Version round-trip: the canonical string of well-formed fields, read back
/// by the version grammar, denotes exactly those fields.
#[verifier::rlimit(60)]
pub proof fn lemma_version_string_parses(v: ToolchainVersion)
    requires
        v.valid(),
    ensures
        spec_parse_version(version_string_spec(v)) == Some(
            (v.major as int, v.minor as int, v.patch as int, v.pre@, v.build@),
        ),
{
    let dmaj = dec_digits(v.major as int);
    let dmin = dec_digits(v.minor as int);
    let dpat = dec_digits(v.patch as int);
    lemma_dec_digits_props(v.major as int);
    lemma_dec_digits_props(v.minor as int);
    lemma_dec_digits_props(v.patch as int);
    let pre = v.pre@;
    let build = v.build@;
    let core = dmaj + seq!['.'] + dmin + seq!['.'] + dpat;
    let head = if pre.len() == 0 { core } else { core + seq!['-'] + pre };
    let s = if build.len() == 0 { head } else { head + seq!['+'] + build };
    assert(version_string_spec(v) =~= s);
    if pre.len() > 0 {
        lemma_prerelease_chars(pre);
    }
    if build.len() > 0 {
        lemma_build_chars(build);
    }
    assert forall|k: int| 0 <= k < core.len() implies is_digit_char(core[k])
        || #[trigger] core[k] == '.' by {
        let l1 = dmaj.len();
        let l2 = l1 + 1 + dmin.len();
        if k < l1 {
            assert(core[k] == dmaj[k]);
        } else if k == l1 {
            assert(core[k] == '.');
        } else if k < l2 {
            assert(core[k] == dmin[k - l1 - 1]);
        } else if k == l2 {
            assert(core[k] == '.');
        } else {
            assert(core[k] == dpat[k - l2 - 1]);
        }
    }
    assert forall|k: int| 0 <= k < head.len() implies #[trigger] head[k] != '+' by {
        if k < core.len() {
            assert(head[k] == core[k]);
        } else if k == core.len() {
            assert(head[k] == '-');
        } else {
            assert(head[k] == pre[k - core.len() - 1]);
        }
    }
    // the first '+' separates the build metadata
    let p = find_char(s, '+');
    if build.len() == 0 {
        lemma_find_char_at(s, '+', s.len() as int);
        assert(p == s.len());
    } else {
        assert(s[head.len() as int] == '+');
        lemma_find_char_at(s, '+', head.len() as int);
        assert(p == head.len());
        assert(s.take(p) =~= head);
        assert(s.skip(p + 1) =~= build);
    }
    let head2 = if p < s.len() { s.take(p) } else { s };
    assert(head2 == head);
    // the first '-' of the head separates the prerelease
    let q = find_char(head, '-');
    if pre.len() == 0 {
        lemma_find_char_at(head, '-', head.len() as int);
        assert(q == head.len());
    } else {
        assert(head[core.len() as int] == '-');
        lemma_find_char_at(head, '-', core.len() as int);
        assert(q == core.len());
        assert(head.take(q) =~= core);
        assert(head.skip(q + 1) =~= pre);
    }
    let core2 = if q < head.len() { head.take(q) } else { head };
    assert(core2 == core);
    // the first dot ends the major digits
    assert(core[dmaj.len() as int] == '.');
    lemma_find_char_at(core, '.', dmaj.len() as int);
    let a = find_char(core, '.');
    assert(a == dmaj.len() && a < core.len());
    assert(core.take(a) =~= dmaj);
    let rest = core.skip(a + 1);
    assert(rest =~= dmin + seq!['.'] + dpat);
    // the next dot ends the minor digits
    assert forall|k: int| 0 <= k < dmin.len() implies #[trigger] rest[k] != '.' by {
        assert(rest[k] == dmin[k]);
    }
    assert(rest[dmin.len() as int] == '.');
    lemma_find_char_at(rest, '.', dmin.len() as int);
    let b = find_char(rest, '.');
    assert(b == dmin.len() && b < rest.len());
    assert(rest.take(b) =~= dmin);
    assert(rest.skip(b + 1) =~= dpat);
    assert(is_numeric_ident(dmaj));
    assert(is_numeric_ident(dmin));
    assert(is_numeric_ident(dpat));
    assert(spec_parse_version(s) == Some(
        (v.major as int, v.minor as int, v.patch as int, v.pre@, v.build@),
    ));
}

} // verus!
