use compile_time::context::BuildContext;
use compile_time::report::parse_version_report;
use compile_time::version::{parse_version, version_string, ToolchainVersion, VersionError};

fn plain(major: u64, minor: u64, patch: u64) -> ToolchainVersion {
    ToolchainVersion { major, minor, patch, pre: String::new(), build: String::new() }
}

#[test]
fn version_string_plain() {
    // toolchain version 1.78.0, no prerelease and no build metadata
    let v = plain(1, 78, 0);
    assert_eq!(version_string(&v), "1.78.0");
    assert_eq!(v.pre, "");
    assert_eq!(v.build, "");
}

#[test]
fn version_string_full() {
    // toolchain version 1.79.0-beta.2+abc123
    let v = ToolchainVersion {
        major: 1,
        minor: 79,
        patch: 0,
        pre: String::from("beta.2"),
        build: String::from("abc123"),
    };
    assert_eq!(version_string(&v), "1.79.0-beta.2+abc123");
    assert_eq!(v.pre, "beta.2");
    assert_eq!(v.build, "abc123");
}

#[test]
fn version_parse_round_trip() {
    for s in ["1.78.0", "1.79.0-beta.2+abc123", "0.0.0", "10.20.30-alpha-1.0a.7+x.y-z.004"] {
        let v = parse_version(s).unwrap();
        assert_eq!(version_string(&v), s);
    }
}

#[test]
fn version_string_standard_parser_agrees() {
    // the canonical string, read back by a standard semantic-version parser,
    // reproduces the full structured version
    let cases = [
        plain(1, 78, 0),
        ToolchainVersion {
            major: 1,
            minor: 79,
            patch: 0,
            pre: String::from("beta.2"),
            build: String::from("abc123"),
        },
        ToolchainVersion {
            major: 18446744073709551615,
            minor: 0,
            patch: 7,
            pre: String::from("nightly"),
            build: String::new(),
        },
    ];
    for v in cases {
        let parsed = semver::Version::parse(&version_string(&v)).unwrap();
        assert_eq!(parsed.major, v.major);
        assert_eq!(parsed.minor, v.minor);
        assert_eq!(parsed.patch, v.patch);
        assert_eq!(parsed.pre.as_str(), v.pre.as_str());
        assert_eq!(parsed.build.as_str(), v.build.as_str());
    }
}

#[test]
fn version_parser_agrees_with_standard_parser() {
    for s in [
        "1.78.0",
        "1.79.0-beta.2+abc123",
        "2.0.0-rc.1",
        "3.4.5+build.11",
        "1.2.3-0.9.z",
    ] {
        let ours = parse_version(s).unwrap();
        let theirs = semver::Version::parse(s).unwrap();
        assert_eq!(ours.major, theirs.major);
        assert_eq!(ours.minor, theirs.minor);
        assert_eq!(ours.patch, theirs.patch);
        assert_eq!(ours.pre.as_str(), theirs.pre.as_str());
        assert_eq!(ours.build.as_str(), theirs.build.as_str());
    }
}

#[test]
fn version_parse_rejects_malformed() {
    for s in [
        "",
        "1",
        "1.2",
        "1.2.3.4",
        "01.2.3",
        "1.02.3",
        "1.2.3-",
        "1.2.3+",
        "1.2.3-a..b",
        "1.2.3-a_b",
        "1.2.3-01",
        "1.2.3+x+y",
        "a.b.c",
        "1.2.3 ",
        // a major number one past u64
        "18446744073709551616.0.0",
    ] {
        assert_eq!(parse_version(s), Err(VersionError::UnparsableOutput), "case: {s}");
        assert!(semver::Version::parse(s).is_err(), "case: {s}");
    }
    // numeric build identifiers may carry leading zeros
    let v = parse_version("1.2.3+004").unwrap();
    assert_eq!(v.build, "004");
    // the largest representable numbers parse
    let v = parse_version("18446744073709551615.0.0").unwrap();
    assert_eq!(v.major, u64::MAX);
}

#[test]
fn report_release_line_parsed() {
    let report = "rustc 1.79.0-beta.2 (abc 2024-05-01)\nbinary: rustc\ncommit-hash: unknown\nrelease: 1.79.0-beta.2+abc123\nhost: x86_64-unknown-linux-gnu\n";
    let v = parse_version_report(report).unwrap();
    assert_eq!(v.major, 1);
    assert_eq!(v.minor, 79);
    assert_eq!(v.patch, 0);
    assert_eq!(v.pre, "beta.2");
    assert_eq!(v.build, "abc123");
}

#[test]
fn report_without_release_line_rejected() {
    let report = "rustc 1.79.0\nbinary: rustc\nhost: x86_64\n";
    assert_eq!(parse_version_report(report), Err(VersionError::UnparsableOutput));
    assert_eq!(parse_version_report(""), Err(VersionError::UnparsableOutput));
    // a release line whose payload breaks the grammar is unparsable too
    assert_eq!(
        parse_version_report("release: not-a-version\n"),
        Err(VersionError::UnparsableOutput)
    );
    // only the first release line counts
    let v = parse_version_report("release: 1.2.3\nrelease: 4.5.6\n").unwrap();
    assert_eq!((v.major, v.minor, v.patch), (1, 2, 3));
}

#[test]
fn version_failure_memoized_verbatim() {
    let mut ctx = BuildContext::new();
    let first = ctx.get_toolchain_version(Err(VersionError::CommandFailed)).clone();
    assert_eq!(first, Err(VersionError::CommandFailed));
    // a later request brings a successful sample, but the memoized failure is
    // surfaced unchanged — never retried, never recovered
    let second = ctx.get_toolchain_version(Ok(plain(1, 78, 0))).clone();
    assert_eq!(second, Err(VersionError::CommandFailed));
}

#[test]
fn version_success_memoized() {
    let mut ctx = BuildContext::new();
    let first = ctx.get_toolchain_version(Ok(plain(1, 78, 0))).clone();
    let second = ctx.get_toolchain_version(Err(VersionError::CommandMissing)).clone();
    assert_eq!(first, second);
    let v = second.unwrap();
    assert_eq!((v.major, v.minor, v.patch), (1, 78, 0));
}
