//! The per-build cache of process state. The build timestamp and the
//! toolchain version are each captured at most once per build: the first
//! request memoizes the freshly sampled value, every later request observes
//! the memoized value unchanged — a version-capture failure included, which
//! is surfaced verbatim and never retried.

use vstd::prelude::*;
use crate::instant::BuildInstant;
use crate::version::{ToolchainVersion, VersionError};

verus! {

/// What a request observes: the already-memoized value when one exists,
/// otherwise the freshly captured sample.
pub open spec fn observed<T>(cached: Option<T>, sample: T) -> T {
    match cached {
        Some(v) => v,
        None => sample,
    }
}

/// Capture is idempotent: once a first request has been answered, a later
/// request observes the same value, whatever sample it brings along.
pub proof fn lemma_capture_idempotent<T>(cached: Option<T>, s1: T, s2: T)
    ensures
        observed(Some(observed(cached, s1)), s2) == observed(cached, s1),
{
}

/// The explicit build context: constructed once per build and threaded into
/// every invocation site. Each field starts uncaptured and is frozen by its
/// first request.
pub struct BuildContext {
    /// The memoized build timestamp, if captured already.
    pub instant: Option<BuildInstant>,
    /// The memoized toolchain version (or its capture failure), if captured.
    pub version: Option<Result<ToolchainVersion, VersionError>>,
}

impl BuildContext {
    /// Captured values are well-formed: the instant is a valid clock reading
    /// and a captured version has well-formed fields.
    pub open spec fn wf(&self) -> bool {
        &&& (self.instant matches Some(i) ==> i.valid())
        &&& (self.version matches Some(r) ==> (r matches Ok(v) ==> v.valid()))
    }

    /// A fresh context with nothing captured yet.
    pub fn new() -> (c: Self)
        ensures
            c.instant is None,
            c.version is None,
            c.wf(),
    {
        BuildContext { instant: None, version: None }
    }

    /// Whether the build timestamp has been captured already. A caller may
    /// use this to skip sampling the host clock a second time.
    pub fn instant_captured(&self) -> (b: bool)
        ensures
            b == (self.instant is Some),
    {
        self.instant.is_some()
    }

    /// Whether the toolchain version has been captured already (successfully
    /// or not). A caller may use this to skip re-running the reporting command.
    pub fn version_captured(&self) -> (b: bool)
        ensures
            b == (self.version is Some),
    {
        self.version.is_some()
    }

    /// The memoized build timestamp; callable once it has been captured.
    pub fn captured_instant(&self) -> (r: BuildInstant)
        requires
            self.instant is Some,
        ensures
            self.instant == Some(r),
    {
        self.instant.unwrap()
    }

    /// The memoized toolchain-version outcome; callable once captured.
    pub fn captured_version(&self) -> (r: &Result<ToolchainVersion, VersionError>)
        requires
            self.version is Some,
        ensures
            self.version == Some(*r),
    {
        self.version.as_ref().unwrap()
    }

    /// The build timestamp: the first call memoizes `sample`; every later
    /// call returns the memoized instant unchanged, whatever sample it brings.
    pub fn get_build_instant(&mut self, sample: BuildInstant) -> (r: BuildInstant)
        requires
            old(self).wf(),
            sample.valid(),
        ensures
            r == observed(old(self).instant, sample),
            final(self).instant == Some(r),
            final(self).version == old(self).version,
            final(self).wf(),
            r.valid(),
    {
        match self.instant {
            Some(v) => v,
            None => {
                self.instant = Some(sample);
                sample
            },
        }
    }

    /// The toolchain version: the first call memoizes `sample` — a capture
    /// failure included — and every later call returns the memoized outcome
    /// unchanged, whatever sample it brings.
    pub fn get_toolchain_version(
        &mut self,
        sample: Result<ToolchainVersion, VersionError>,
    ) -> (r: &Result<ToolchainVersion, VersionError>)
        requires
            old(self).wf(),
            sample matches Ok(v) ==> v.valid(),
        ensures
            *r == observed(old(self).version, sample),
            final(self).version == Some(*r),
            final(self).instant == old(self).instant,
            final(self).wf(),
            *r matches Ok(v) ==> v.valid(),
    {
        if self.version.is_none() {
            self.version = Some(sample);
        }
        self.version.as_ref().unwrap()
    }
}

} // verus!
