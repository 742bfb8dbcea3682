//! The literal emitter: renders each requested view of the captured build
//! state as the source text of a literal expression, ready to replace its
//! invocation site. Structured values become constructor invocations on the
//! host-side date/time and version types — with a fallback arm that the field
//! invariants make unreachable, aborting rather than producing an invalid
//! value — primitives become bare literal tokens, and strings become quoted
//! string-literal tokens.

use vstd::prelude::*;
use vstd::string::StringExecFns;
use crate::fmtnum::{dec_digits, dec_u64_string};
use crate::instant::{lemma_unix_seconds_range, unix_seconds_spec, BuildInstant};
use crate::version::{version_string, version_string_spec, ToolchainVersion, VersionError};
use crate::views::{date_string_spec, datetime_string_spec, time_string_spec};

verus! {

/// The text of a string-literal token holding `s`. No escaping is ever
/// needed: every emitted string consists of digits, letters and the
/// separators of the date, time and version grammars.
pub open spec fn quoted_spec(s: Seq<char>) -> Seq<char> {
    seq!['"'] + s + seq!['"']
}

/// Wraps `s` in string-literal quotes.
fn quoted(s: &str) -> (r: String)
    ensures
        r@ == quoted_spec(s@),
{
    let mut t = String::from_str("\"");
    t.append(s);
    t.append("\"");
    proof {
        reveal_strlit("\"");
        assert(t@ =~= quoted_spec(s@));
    }
    t
}

/// The English name of month `m`, as the host-side month type spells its
/// variants.
pub open spec fn month_name_spec(m: int) -> Seq<char> {
    if m == 1 {
        "January"@
    } else if m == 2 {
        "February"@
    } else if m == 3 {
        "March"@
    } else if m == 4 {
        "April"@
    } else if m == 5 {
        "May"@
    } else if m == 6 {
        "June"@
    } else if m == 7 {
        "July"@
    } else if m == 8 {
        "August"@
    } else if m == 9 {
        "September"@
    } else if m == 10 {
        "October"@
    } else if m == 11 {
        "November"@
    } else {
        "December"@
    }
}

/// The English name of month `m`.
pub fn month_name(m: u8) -> (r: &'static str)
    requires
        1 <= m <= 12,
    ensures
        r@ == month_name_spec(m as int),
{
    match m {
        1 => "January",
        2 => "February",
        3 => "March",
        4 => "April",
        5 => "May",
        6 => "June",
        7 => "July",
        8 => "August",
        9 => "September",
        10 => "October",
        11 => "November",
        _ => "December",
    }
}

/// Source text of the checked date-constructor invocation for `i`.
pub open spec fn date_expr_spec(i: BuildInstant) -> Seq<char> {
    "match ::time::Date::from_calendar_date("@ + dec_digits(i.year as int)
        + "i32, ::time::Month::"@ + month_name_spec(i.month as int) + ", "@
        + dec_digits(i.day as int) + "u8) { Ok(date) => date, _ => ::core::unreachable!(), }"@
}

/// Source text of the checked time-constructor invocation for `i`.
pub open spec fn time_expr_spec(i: BuildInstant) -> Seq<char> {
    "match ::time::Time::from_hms("@ + dec_digits(i.hour as int) + "u8, "@
        + dec_digits(i.minute as int) + "u8, "@ + dec_digits(i.second as int)
        + "u8) { Ok(time) => time, _ => ::core::unreachable!(), }"@
}

/// Source text of the UTC date-time constructor invocation for `i`.
pub open spec fn datetime_expr_spec(i: BuildInstant) -> Seq<char> {
    "::time::PrimitiveDateTime::new("@ + date_expr_spec(i) + ", "@ + time_expr_spec(i)
        + ").assume_utc()"@
}

/// Compile date as a date-constructor expression.
pub fn date(instant: &BuildInstant) -> (r: String)
    requires
        instant.valid(),
    ensures
        r@ == date_expr_spec(*instant),
{
    let mut s = String::from_str("match ::time::Date::from_calendar_date(");
    let y = dec_u64_string(instant.year as u64);
    s.append(y.as_str());
    s.append("i32, ::time::Month::");
    s.append(month_name(instant.month));
    s.append(", ");
    let d = dec_u64_string(instant.day as u64);
    s.append(d.as_str());
    s.append("u8) { Ok(date) => date, _ => ::core::unreachable!(), }");
    proof {
        assert(s@ =~= date_expr_spec(*instant));
    }
    s
}

/// Compile date as a string-literal token in `"YYYY-MM-DD"` format.
pub fn date_str(instant: &BuildInstant) -> (r: String)
    requires
        instant.valid(),
    ensures
        r@ == quoted_spec(date_string_spec(*instant)),
{
    let v = instant.date_string();
    quoted(v.as_str())
}

/// Compile time as a time-constructor expression.
pub fn time(instant: &BuildInstant) -> (r: String)
    requires
        instant.valid(),
    ensures
        r@ == time_expr_spec(*instant),
{
    let mut s = String::from_str("match ::time::Time::from_hms(");
    let h = dec_u64_string(instant.hour as u64);
    s.append(h.as_str());
    s.append("u8, ");
    let m = dec_u64_string(instant.minute as u64);
    s.append(m.as_str());
    s.append("u8, ");
    let sec = dec_u64_string(instant.second as u64);
    s.append(sec.as_str());
    s.append("u8) { Ok(time) => time, _ => ::core::unreachable!(), }");
    proof {
        assert(s@ =~= time_expr_spec(*instant));
    }
    s
}

/// Compile time as a string-literal token in `"HH:MM:SS"` format.
pub fn time_str(instant: &BuildInstant) -> (r: String)
    requires
        instant.valid(),
    ensures
        r@ == quoted_spec(time_string_spec(*instant)),
{
    let v = instant.time_string();
    quoted(v.as_str())
}

/// Compile date and time as a UTC date-time constructor expression.
pub fn datetime(instant: &BuildInstant) -> (r: String)
    requires
        instant.valid(),
    ensures
        r@ == datetime_expr_spec(*instant),
{
    let mut s = String::from_str("::time::PrimitiveDateTime::new(");
    let dexpr = date(instant);
    s.append(dexpr.as_str());
    s.append(", ");
    let texpr = time(instant);
    s.append(texpr.as_str());
    s.append(").assume_utc()");
    proof {
        assert(s@ =~= datetime_expr_spec(*instant));
    }
    s
}

/// Compile date and time as a string-literal token in
/// `"YYYY-MM-DDTHH:MM:SSZ"` format.
pub fn datetime_str(instant: &BuildInstant) -> (r: String)
    requires
        instant.valid(),
    ensures
        r@ == quoted_spec(datetime_string_spec(*instant)),
{
    let v = instant.datetime_string();
    quoted(v.as_str())
}

/// Compile date and time as an unsuffixed UNIX-timestamp literal in seconds.
pub fn unix(instant: &BuildInstant) -> (r: String)
    requires
        instant.valid(),
    ensures
        r@ == dec_digits(unix_seconds_spec(*instant)),
{
    proof {
        lemma_unix_seconds_range(*instant);
    }
    let secs = instant.unix_seconds();
    dec_u64_string(secs as u64)
}

/// Source text of the prerelease constructor for `v`: the empty constant when
/// the segment is absent, else a checked constructor whose fallback arm the
/// grammar invariant makes unreachable.
pub open spec fn prerelease_expr_spec(v: ToolchainVersion) -> Seq<char> {
    if v.pre@.len() == 0 {
        "::semver::Prerelease::EMPTY"@
    } else {
        "if let Ok(pre) = ::semver::Prerelease::new("@ + quoted_spec(v.pre@)
            + ") { pre } else { ::core::unreachable!() }"@
    }
}

/// Source text of the build-metadata constructor for `v`, as for the
/// prerelease segment.
pub open spec fn buildmeta_expr_spec(v: ToolchainVersion) -> Seq<char> {
    if v.build@.len() == 0 {
        "::semver::BuildMetadata::EMPTY"@
    } else {
        "if let Ok(build) = ::semver::BuildMetadata::new("@ + quoted_spec(v.build@)
            + ") { build } else { ::core::unreachable!() }"@
    }
}

/// Source text of the version-constructor expression for `v`.
pub open spec fn version_expr_spec(v: ToolchainVersion) -> Seq<char> {
    "::semver::Version { major: "@ + dec_digits(v.major as int) + "u64, minor: "@
        + dec_digits(v.minor as int) + "u64, patch: "@ + dec_digits(v.patch as int)
        + "u64, pre: "@ + prerelease_expr_spec(v) + ", build: "@ + buildmeta_expr_spec(v)
        + ", }"@
}

/// Toolchain version as a version-constructor expression; a memoized capture
/// failure is surfaced verbatim.
pub fn rustc_version(ver: &Result<ToolchainVersion, VersionError>) -> (r: Result<
    String,
    VersionError,
>)
    ensures
        (*ver) matches Ok(v) ==> r matches Ok(t) && t@ == version_expr_spec(v),
        (*ver) matches Err(e) ==> r == Err::<String, VersionError>(e),
{
    match ver {
        Err(e) => Err(*e),
        Ok(v) => {
            let mut s = String::from_str("::semver::Version { major: ");
            let ma = dec_u64_string(v.major);
            s.append(ma.as_str());
            s.append("u64, minor: ");
            let mi = dec_u64_string(v.minor);
            s.append(mi.as_str());
            s.append("u64, patch: ");
            let pa = dec_u64_string(v.patch);
            s.append(pa.as_str());
            s.append("u64, pre: ");
            if v.pre.as_str().is_empty() {
                s.append("::semver::Prerelease::EMPTY");
            } else {
                s.append("if let Ok(pre) = ::semver::Prerelease::new(");
                let q = quoted(v.pre.as_str());
                s.append(q.as_str());
                s.append(") { pre } else { ::core::unreachable!() }");
            }
            s.append(", build: ");
            if v.build.as_str().is_empty() {
                s.append("::semver::BuildMetadata::EMPTY");
            } else {
                s.append("if let Ok(build) = ::semver::BuildMetadata::new(");
                let q = quoted(v.build.as_str());
                s.append(q.as_str());
                s.append(") { build } else { ::core::unreachable!() }");
            }
            s.append(", }");
            proof {
                assert(s@ =~= version_expr_spec(*v));
            }
            Ok(s)
        },
    }
}

/// Toolchain version as a string-literal token of the canonical version
/// string; a memoized capture failure is surfaced verbatim.
pub fn rustc_version_str(ver: &Result<ToolchainVersion, VersionError>) -> (r: Result<
    String,
    VersionError,
>)
    ensures
        (*ver) matches Ok(v) ==> r matches Ok(t) && t@ == quoted_spec(version_string_spec(v)),
        (*ver) matches Err(e) ==> r == Err::<String, VersionError>(e),
{
    match ver {
        Err(e) => Err(*e),
        Ok(v) => {
            let vs = version_string(v);
            Ok(quoted(vs.as_str()))
        },
    }
}

/// Toolchain major version as an unsuffixed integer literal.
pub fn rustc_version_major(ver: &Result<ToolchainVersion, VersionError>) -> (r: Result<
    String,
    VersionError,
>)
    ensures
        (*ver) matches Ok(v) ==> r matches Ok(t) && t@ == dec_digits(v.major as int),
        (*ver) matches Err(e) ==> r == Err::<String, VersionError>(e),
{
    match ver {
        Err(e) => Err(*e),
        Ok(v) => Ok(dec_u64_string(v.major)),
    }
}

/// Toolchain minor version as an unsuffixed integer literal.
pub fn rustc_version_minor(ver: &Result<ToolchainVersion, VersionError>) -> (r: Result<
    String,
    VersionError,
>)
    ensures
        (*ver) matches Ok(v) ==> r matches Ok(t) && t@ == dec_digits(v.minor as int),
        (*ver) matches Err(e) ==> r == Err::<String, VersionError>(e),
{
    match ver {
        Err(e) => Err(*e),
        Ok(v) => Ok(dec_u64_string(v.minor)),
    }
}

/// Toolchain patch version as an unsuffixed integer literal.
pub fn rustc_version_patch(ver: &Result<ToolchainVersion, VersionError>) -> (r: Result<
    String,
    VersionError,
>)
    ensures
        (*ver) matches Ok(v) ==> r matches Ok(t) && t@ == dec_digits(v.patch as int),
        (*ver) matches Err(e) ==> r == Err::<String, VersionError>(e),
{
    match ver {
        Err(e) => Err(*e),
        Ok(v) => Ok(dec_u64_string(v.patch)),
    }
}

/// Toolchain prerelease as a string-literal token (empty when absent).
pub fn rustc_version_pre(ver: &Result<ToolchainVersion, VersionError>) -> (r: Result<
    String,
    VersionError,
>)
    ensures
        (*ver) matches Ok(v) ==> r matches Ok(t) && t@ == quoted_spec(v.pre@),
        (*ver) matches Err(e) ==> r == Err::<String, VersionError>(e),
{
    match ver {
        Err(e) => Err(*e),
        Ok(v) => Ok(quoted(v.pre.as_str())),
    }
}

/// Toolchain build metadata as a string-literal token (empty when absent).
pub fn rustc_version_build(ver: &Result<ToolchainVersion, VersionError>) -> (r: Result<
    String,
    VersionError,
>)
    ensures
        (*ver) matches Ok(v) ==> r matches Ok(t) && t@ == quoted_spec(v.build@),
        (*ver) matches Err(e) ==> r == Err::<String, VersionError>(e),
{
    match ver {
        Err(e) => Err(*e),
        Ok(v) => Ok(quoted(v.build.as_str())),
    }
}

/// The closed set of views an invocation site may request.
#[derive(Clone, Copy, PartialEq, Eq, Structural, Debug)]
pub enum ViewTag {
    Date,
    DateString,
    Time,
    TimeString,
    DateTime,
    DateTimeString,
    UnixSeconds,
    Version,
    VersionString,
    VersionMajor,
    VersionMinor,
    VersionPatch,
    VersionPrerelease,
    VersionBuildMetadata,
}

/// The view tag a request names, or `None` when unrecognized.
pub open spec fn spec_parse_tag(s: Seq<char>) -> Option<ViewTag> {
    if s == "date"@ {
        Some(ViewTag::Date)
    } else if s == "date-string"@ {
        Some(ViewTag::DateString)
    } else if s == "time"@ {
        Some(ViewTag::Time)
    } else if s == "time-string"@ {
        Some(ViewTag::TimeString)
    } else if s == "datetime"@ {
        Some(ViewTag::DateTime)
    } else if s == "datetime-string"@ {
        Some(ViewTag::DateTimeString)
    } else if s == "unix-seconds"@ {
        Some(ViewTag::UnixSeconds)
    } else if s == "toolchain-version"@ {
        Some(ViewTag::Version)
    } else if s == "toolchain-version-string"@ {
        Some(ViewTag::VersionString)
    } else if s == "toolchain-version-major"@ {
        Some(ViewTag::VersionMajor)
    } else if s == "toolchain-version-minor"@ {
        Some(ViewTag::VersionMinor)
    } else if s == "toolchain-version-patch"@ {
        Some(ViewTag::VersionPatch)
    } else if s == "toolchain-version-prerelease"@ {
        Some(ViewTag::VersionPrerelease)
    } else if s == "toolchain-version-buildmetadata"@ {
        Some(ViewTag::VersionBuildMetadata)
    } else {
        None
    }
}

/// Recognizes a view tag.
pub fn parse_tag(s: &str) -> (r: Option<ViewTag>)
    ensures
        r == spec_parse_tag(s@),
{
    let t = s.to_owned();
    if t == String::from_str("date") {
        Some(ViewTag::Date)
    } else if t == String::from_str("date-string") {
        Some(ViewTag::DateString)
    } else if t == String::from_str("time") {
        Some(ViewTag::Time)
    } else if t == String::from_str("time-string") {
        Some(ViewTag::TimeString)
    } else if t == String::from_str("datetime") {
        Some(ViewTag::DateTime)
    } else if t == String::from_str("datetime-string") {
        Some(ViewTag::DateTimeString)
    } else if t == String::from_str("unix-seconds") {
        Some(ViewTag::UnixSeconds)
    } else if t == String::from_str("toolchain-version") {
        Some(ViewTag::Version)
    } else if t == String::from_str("toolchain-version-string") {
        Some(ViewTag::VersionString)
    } else if t == String::from_str("toolchain-version-major") {
        Some(ViewTag::VersionMajor)
    } else if t == String::from_str("toolchain-version-minor") {
        Some(ViewTag::VersionMinor)
    } else if t == String::from_str("toolchain-version-patch") {
        Some(ViewTag::VersionPatch)
    } else if t == String::from_str("toolchain-version-prerelease") {
        Some(ViewTag::VersionPrerelease)
    } else if t == String::from_str("toolchain-version-buildmetadata") {
        Some(ViewTag::VersionBuildMetadata)
    } else {
        None
    }
}

/// What each view tag emits for the captured state: the literal's source
/// text, or — for the version views — the memoized capture failure verbatim.
pub open spec fn spec_emit(
    tag: ViewTag,
    i: BuildInstant,
    ver: Result<ToolchainVersion, VersionError>,
) -> Result<Seq<char>, VersionError> {
    match tag {
        ViewTag::Date => Ok(date_expr_spec(i)),
        ViewTag::DateString => Ok(quoted_spec(date_string_spec(i))),
        ViewTag::Time => Ok(time_expr_spec(i)),
        ViewTag::TimeString => Ok(quoted_spec(time_string_spec(i))),
        ViewTag::DateTime => Ok(datetime_expr_spec(i)),
        ViewTag::DateTimeString => Ok(quoted_spec(datetime_string_spec(i))),
        ViewTag::UnixSeconds => Ok(dec_digits(unix_seconds_spec(i))),
        ViewTag::Version => match ver {
            Ok(v) => Ok(version_expr_spec(v)),
            Err(e) => Err(e),
        },
        ViewTag::VersionString => match ver {
            Ok(v) => Ok(quoted_spec(version_string_spec(v))),
            Err(e) => Err(e),
        },
        ViewTag::VersionMajor => match ver {
            Ok(v) => Ok(dec_digits(v.major as int)),
            Err(e) => Err(e),
        },
        ViewTag::VersionMinor => match ver {
            Ok(v) => Ok(dec_digits(v.minor as int)),
            Err(e) => Err(e),
        },
        ViewTag::VersionPatch => match ver {
            Ok(v) => Ok(dec_digits(v.patch as int)),
            Err(e) => Err(e),
        },
        ViewTag::VersionPrerelease => match ver {
            Ok(v) => Ok(quoted_spec(v.pre@)),
            Err(e) => Err(e),
        },
        ViewTag::VersionBuildMetadata => match ver {
            Ok(v) => Ok(quoted_spec(v.build@)),
            Err(e) => Err(e),
        },
    }
}

/// Exhaustive dispatch from a view tag to its emitted literal. Because the
/// result is a pure function of the captured state, any two requests for the
/// same tag within one build emit identical literals.
pub fn emit(
    tag: ViewTag,
    instant: &BuildInstant,
    ver: &Result<ToolchainVersion, VersionError>,
) -> (r: Result<String, VersionError>)
    requires
        instant.valid(),
    ensures
        spec_emit(tag, *instant, *ver) matches Ok(t) ==> r matches Ok(s) && s@ == t,
        spec_emit(tag, *instant, *ver) matches Err(e) ==> r == Err::<String, VersionError>(e),
{
    match tag {
        ViewTag::Date => Ok(date(instant)),
        ViewTag::DateString => Ok(date_str(instant)),
        ViewTag::Time => Ok(time(instant)),
        ViewTag::TimeString => Ok(time_str(instant)),
        ViewTag::DateTime => Ok(datetime(instant)),
        ViewTag::DateTimeString => Ok(datetime_str(instant)),
        ViewTag::UnixSeconds => Ok(unix(instant)),
        ViewTag::Version => rustc_version(ver),
        ViewTag::VersionString => rustc_version_str(ver),
        ViewTag::VersionMajor => rustc_version_major(ver),
        ViewTag::VersionMinor => rustc_version_minor(ver),
        ViewTag::VersionPatch => rustc_version_patch(ver),
        ViewTag::VersionPrerelease => rustc_version_pre(ver),
        ViewTag::VersionBuildMetadata => rustc_version_build(ver),
    }
}

} // verus!
