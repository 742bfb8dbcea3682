use compile_time::emit::{
    date, date_str, datetime, datetime_str, emit, parse_tag, rustc_version, rustc_version_build,
    rustc_version_major, rustc_version_minor, rustc_version_patch, rustc_version_pre,
    rustc_version_str, time, time_str, unix, ViewTag,
};
use compile_time::instant::{instant_from_unix, BuildInstant};
use compile_time::version::{ToolchainVersion, VersionError};

fn sample_instant() -> BuildInstant {
    // 2024-03-05T14:08:31 UTC
    instant_from_unix(1709647711).unwrap()
}

fn sample_version() -> ToolchainVersion {
    ToolchainVersion {
        major: 1,
        minor: 79,
        patch: 0,
        pre: String::from("beta.2"),
        build: String::from("abc123"),
    }
}

#[test]
fn emitted_time_literals() {
    let i = sample_instant();
    assert_eq!(date_str(&i), "\"2024-03-05\"");
    assert_eq!(time_str(&i), "\"14:08:31\"");
    assert_eq!(datetime_str(&i), "\"2024-03-05T14:08:31Z\"");
    assert_eq!(unix(&i), "1709647711");
    assert_eq!(
        date(&i),
        "match ::time::Date::from_calendar_date(2024i32, ::time::Month::March, 5u8) \
         { Ok(date) => date, _ => ::core::unreachable!(), }"
    );
    assert_eq!(
        time(&i),
        "match ::time::Time::from_hms(14u8, 8u8, 31u8) \
         { Ok(time) => time, _ => ::core::unreachable!(), }"
    );
    let expected_datetime = format!(
        "::time::PrimitiveDateTime::new({}, {}).assume_utc()",
        date(&i),
        time(&i)
    );
    assert_eq!(datetime(&i), expected_datetime);
}

#[test]
fn emitted_version_literals() {
    let ok: Result<ToolchainVersion, VersionError> = Ok(sample_version());
    assert_eq!(rustc_version_str(&ok).unwrap(), "\"1.79.0-beta.2+abc123\"");
    assert_eq!(rustc_version_major(&ok).unwrap(), "1");
    assert_eq!(rustc_version_minor(&ok).unwrap(), "79");
    assert_eq!(rustc_version_patch(&ok).unwrap(), "0");
    assert_eq!(rustc_version_pre(&ok).unwrap(), "\"beta.2\"");
    assert_eq!(rustc_version_build(&ok).unwrap(), "\"abc123\"");
    assert_eq!(
        rustc_version(&ok).unwrap(),
        "::semver::Version { major: 1u64, minor: 79u64, patch: 0u64, \
         pre: if let Ok(pre) = ::semver::Prerelease::new(\"beta.2\") { pre } \
         else { ::core::unreachable!() }, \
         build: if let Ok(build) = ::semver::BuildMetadata::new(\"abc123\") { build } \
         else { ::core::unreachable!() }, }"
    );
}

#[test]
fn emitted_version_literals_plain() {
    // toolchain version 1.78.0: absent segments emit the empty constants and
    // empty string literals
    let ok: Result<ToolchainVersion, VersionError> = Ok(ToolchainVersion {
        major: 1,
        minor: 78,
        patch: 0,
        pre: String::new(),
        build: String::new(),
    });
    assert_eq!(rustc_version_str(&ok).unwrap(), "\"1.78.0\"");
    assert_eq!(rustc_version_pre(&ok).unwrap(), "\"\"");
    assert_eq!(rustc_version_build(&ok).unwrap(), "\"\"");
    assert_eq!(
        rustc_version(&ok).unwrap(),
        "::semver::Version { major: 1u64, minor: 78u64, patch: 0u64, \
         pre: ::semver::Prerelease::EMPTY, build: ::semver::BuildMetadata::EMPTY, }"
    );
}

#[test]
fn version_error_surfaced_verbatim() {
    let err: Result<ToolchainVersion, VersionError> = Err(VersionError::CommandMissing);
    assert_eq!(rustc_version(&err), Err(VersionError::CommandMissing));
    assert_eq!(rustc_version_str(&err), Err(VersionError::CommandMissing));
    assert_eq!(rustc_version_major(&err), Err(VersionError::CommandMissing));
    assert_eq!(rustc_version_minor(&err), Err(VersionError::CommandMissing));
    assert_eq!(rustc_version_patch(&err), Err(VersionError::CommandMissing));
    assert_eq!(rustc_version_pre(&err), Err(VersionError::CommandMissing));
    assert_eq!(rustc_version_build(&err), Err(VersionError::CommandMissing));
    let i = sample_instant();
    assert_eq!(emit(ViewTag::Version, &i, &err), Err(VersionError::CommandMissing));
    // the time views never depend on the version capture
    assert_eq!(emit(ViewTag::DateString, &i, &err).unwrap(), "\"2024-03-05\"");
}

#[test]
fn emit_is_idempotent() {
    // two requests for the same view tag within one build return identical
    // literals
    let i = sample_instant();
    let ver: Result<ToolchainVersion, VersionError> = Ok(sample_version());
    let tags = [
        ViewTag::Date,
        ViewTag::DateString,
        ViewTag::Time,
        ViewTag::TimeString,
        ViewTag::DateTime,
        ViewTag::DateTimeString,
        ViewTag::UnixSeconds,
        ViewTag::Version,
        ViewTag::VersionString,
        ViewTag::VersionMajor,
        ViewTag::VersionMinor,
        ViewTag::VersionPatch,
        ViewTag::VersionPrerelease,
        ViewTag::VersionBuildMetadata,
    ];
    for tag in tags {
        assert_eq!(emit(tag, &i, &ver), emit(tag, &i, &ver));
    }
}

#[test]
fn emitted_expressions_are_valid_tokens() {
    // every emitted literal must be spliceable source text
    let i = sample_instant();
    let ver: Result<ToolchainVersion, VersionError> = Ok(sample_version());
    for text in [
        date(&i),
        date_str(&i),
        time(&i),
        time_str(&i),
        datetime(&i),
        datetime_str(&i),
        unix(&i),
        rustc_version(&ver).unwrap(),
        rustc_version_str(&ver).unwrap(),
        rustc_version_major(&ver).unwrap(),
        rustc_version_pre(&ver).unwrap(),
    ] {
        assert!(text.parse::<proc_macro2::TokenStream>().is_ok(), "not tokens: {text}");
    }
}

#[test]
fn recognized_tags() {
    assert_eq!(parse_tag("date"), Some(ViewTag::Date));
    assert_eq!(parse_tag("date-string"), Some(ViewTag::DateString));
    assert_eq!(parse_tag("time"), Some(ViewTag::Time));
    assert_eq!(parse_tag("time-string"), Some(ViewTag::TimeString));
    assert_eq!(parse_tag("datetime"), Some(ViewTag::DateTime));
    assert_eq!(parse_tag("datetime-string"), Some(ViewTag::DateTimeString));
    assert_eq!(parse_tag("unix-seconds"), Some(ViewTag::UnixSeconds));
    assert_eq!(parse_tag("toolchain-version"), Some(ViewTag::Version));
    assert_eq!(parse_tag("toolchain-version-string"), Some(ViewTag::VersionString));
    assert_eq!(parse_tag("toolchain-version-major"), Some(ViewTag::VersionMajor));
    assert_eq!(parse_tag("toolchain-version-minor"), Some(ViewTag::VersionMinor));
    assert_eq!(parse_tag("toolchain-version-patch"), Some(ViewTag::VersionPatch));
    assert_eq!(parse_tag("toolchain-version-prerelease"), Some(ViewTag::VersionPrerelease));
    assert_eq!(
        parse_tag("toolchain-version-buildmetadata"),
        Some(ViewTag::VersionBuildMetadata)
    );
    assert_eq!(parse_tag("date-str"), None);
    assert_eq!(parse_tag(""), None);
    assert_eq!(parse_tag("DATE"), None);
}
