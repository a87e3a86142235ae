use vstd::prelude::*;
use crate::errors::ProfError;
use crate::lifecycle::{after_activate, after_deactivate, can_activate, can_dump};
use crate::naming::{
    dump_file_name, lemma_timestamp_name_safe, now_timestamp, spec_dump_file_name, valid_dump_name,
    valid_name_char, valid_timestamp, ProfKind,
};
use crate::parse::{parse_frequency, spec_frequency_of};
use crate::chars::str_eq;

verus! {

// The CPU profiling kind.
//
// The controller owns the single session slot for CPU sampling: an optional
// guard of the external sampling profiler. `active` starts sampling and
// fills the slot, `dump` builds a report over the samples collected so far
// and names the file its flamegraph belongs in, `deactive` drops the
// guard, which stops sampling.

#[verifier::external_type_specification]
#[verifier::external_body]
pub struct ExProfilerGuard<'a>(pprof::ProfilerGuard<'a>);

#[verifier::external_type_specification]
#[verifier::external_body]
pub struct ExReportBuilder<'a>(pprof::ReportBuilder<'a>);

#[verifier::external_type_specification]
#[verifier::external_body]
pub struct ExReport(pprof::Report);

/// Relies on `pprof::ProfilerGuard::new`: starts statistical CPU stack
/// sampling at `frequency` Hz and returns the guard owning the running
/// profiler, or the profiler's error. The profiler's sampling timer divides
/// by the frequency, so zero would panic there and is excluded here.
#[verifier::external_body]
fn start_sampling(frequency: i32) -> (r: Result<pprof::ProfilerGuard<'static>, ProfError>)
    requires
        frequency != 0,
    ensures
        r matches Err(e) ==> e is Collaborator,
{
    match pprof::ProfilerGuard::new(frequency) {
        Ok(g) => Ok(g),
        Err(e) => Err(ProfError::Collaborator(format!("{}", e))),
    }
}

/// Relies on `pprof::ProfilerGuard::report`: yields the builder for a report
/// over the samples collected so far.
#[verifier::external_body]
fn report_builder<'a>(g: &'a pprof::ProfilerGuard<'static>) -> (r: pprof::ReportBuilder<'a>) {
    g.report()
}

/// Relies on `pprof::ReportBuilder::build`: aggregates the collected samples
/// into a report, or fails with the profiler's error.
#[verifier::external_body]
fn build_report(b: &pprof::ReportBuilder<'_>) -> (r: Result<pprof::Report, ProfError>)
    ensures
        r matches Err(e) ==> e is Collaborator,
{
    match b.build() {
        Ok(rep) => Ok(rep),
        Err(e) => Err(ProfError::Collaborator(format!("{}", e))),
    }
}

/// A CPU dump, ready to be rendered: the file name it should be written
/// to, and the opaque report over the samples collected so far. Rendering
/// the report to its SVG flamegraph is the holder's step, outside this
/// library: pprof's renderer aborts the thread in one rare case (a report
/// whose every sampled thread name begins with `# `), which no
/// precondition over the opaque report could exclude, so this library —
/// whose verified functions do not panic — does not make that call.
pub struct DumpArtifact {
    pub file_name: String,
    pub report: pprof::Report,
}

/// The session slot for CPU profiling.
pub struct CpuController {
    guard: Option<pprof::ProfilerGuard<'static>>,
}

impl CpuController {
    /// Whether a CPU profiling session is currently active.
    pub closed spec fn is_active(&self) -> bool {
        self.guard is Some
    }

    /// A fresh controller; no session is active.
    pub fn new() -> (c: Self)
        ensures
            !c.is_active(),
    {
        CpuController { guard: None }
    }

    /// Reports whether a session is currently active.
    pub fn currently_active(&self) -> (r: bool)
        ensures
            r == self.is_active(),
    {
        self.guard.is_some()
    }

    /// Starts a CPU profiling session sampling at `frequency` Hz. The
    /// sampler cannot run at 0 Hz (its timer divides by the frequency), so
    /// callers must refuse that value first, as `handle_cpu` does.
    ///
    /// Refused with `AlreadyActive` while a session is running: the running
    /// session is never silently replaced. A refused or failed activation
    /// leaves the slot exactly as it was.
    pub fn active(&mut self, frequency: i32) -> (r: Result<(), ProfError>)
        requires
            frequency != 0,
        ensures
            final (self).is_active() == after_activate(old(self).is_active(), r is Ok),
            r is Ok ==> can_activate(old(self).is_active()),
            old(self).is_active() ==> (r matches Err(e) && e is AlreadyActive && *final (self)
                == *old(self)),
            !old(self).is_active() ==> (r is Ok <==> final (self).is_active()),
            !old(self).is_active() && r is Err ==> (r matches Err(e) && e is Collaborator
                && !final (self).is_active()),
    {
        if self.guard.is_some() {
            return Err(ProfError::AlreadyActive);
        }
        match start_sampling(frequency) {
            Ok(g) => {
                self.guard = Some(g);
                Ok(())
            },
            Err(e) => Err(e),
        }
    }

    /// Stops the session, dropping the profiler guard; a harmless no-op when
    /// no session is active.
    pub fn deactive(&mut self) -> (r: Result<(), ProfError>)
        ensures
            r is Ok,
            !final (self).is_active(),
            final (self).is_active() == after_deactivate(old(self).is_active()),
    {
        self.guard = None;
        Ok(())
    }

    /// Builds a report over the samples collected so far, to be rendered
    /// as an SVG flamegraph and written to `{name}.{ts}.svg`.
    ///
    /// Refused with `NotActive` while no session is running; a running
    /// session is read, never changed.
    pub fn dump(&self, name: &str, ts: &str) -> (r: Result<DumpArtifact, ProfError>)
        requires
            valid_dump_name(name@),
            valid_dump_name(ts@),
        ensures
            !self.is_active() ==> (r matches Err(e) && e is NotActive),
            self.is_active() && r is Err ==> (r matches Err(e) && e is Collaborator),
            r matches Ok(a) ==> can_dump(self.is_active()) && a.file_name@
                == spec_dump_file_name(name@, ts@, ProfKind::Cpu),
    {
        match &self.guard {
            None => Err(ProfError::NotActive),
            Some(g) => {
                let builder = report_builder(g);
                match build_report(&builder) {
                    Err(e) => Err(e),
                    Ok(rep) => Ok(
                        DumpArtifact {
                            file_name: dump_file_name(name, ts, ProfKind::Cpu),
                            report: rep,
                        },
                    ),
                }
            },
        }
    }
}

/// The logical name CPU dumps are written under.
pub open spec fn spec_cpu_dump_name() -> Seq<char> {
    "cpu_prof"@
}

proof fn lemma_cpu_dump_name_valid()
    ensures
        valid_dump_name(spec_cpu_dump_name()),
{
    reveal_strlit("cpu_prof");
    assert forall|i: int| 0 <= i < "cpu_prof"@.len() implies valid_name_char(
        "cpu_prof"@[i],
    ) by {
        reveal_strlit("cpu_prof");
    }
}

/// Maps a `/cpu/<path>` route to the controller operation it names:
/// `active` (with the parsed or defaulted frequency), `deactive`, `dump`
/// under the name `cpu_prof`, and a no-op for any other path. A parameter
/// that parses to frequency zero — a rate the sampler cannot run at — is
/// refused with an error; only a missing or unparsable parameter falls
/// back to the default.
pub fn handle_cpu(ctl: &mut CpuController, path: &str, frequency: Option<&str>) -> (r: Result<
    Option<DumpArtifact>,
    ProfError,
>)
    ensures
        path@ == "active"@ && spec_frequency_of(frequency) == 0 ==> (r matches Err(e) && (e
            matches ProfError::Collaborator(m) && m@
            == "cpu sampling frequency must not be zero"@) && *final (ctl) == *old(ctl)),
        path@ == "active"@ && spec_frequency_of(frequency) != 0 ==> {
            &&& final (ctl).is_active() == after_activate(old(ctl).is_active(), r is Ok)
            &&& old(ctl).is_active() ==> (r matches Err(e) && e is AlreadyActive && *final (ctl)
                == *old(ctl))
            &&& !old(ctl).is_active() ==> (r is Ok <==> final (ctl).is_active())
            &&& !old(ctl).is_active() && r is Err ==> (r matches Err(e) && e is Collaborator)
            &&& r matches Ok(a) ==> a is None
        },
        path@ == "deactive"@ ==> {
            &&& r matches Ok(a) && a is None
            &&& !final (ctl).is_active()
        },
        path@ == "dump"@ ==> {
            &&& *final (ctl) == *old(ctl)
            &&& !old(ctl).is_active() ==> (r matches Err(e) && e is NotActive)
            &&& old(ctl).is_active() && r is Err ==> (r matches Err(e) && e is Collaborator)
            &&& r matches Ok(a) ==> (a matches Some(art) && old(ctl).is_active() && exists|
                ts: Seq<char>,
            |
                valid_timestamp(ts) && art.file_name@ == spec_dump_file_name(
                    spec_cpu_dump_name(),
                    ts,
                    ProfKind::Cpu,
                ))
        },
        !(path@ == "active"@ || path@ == "deactive"@ || path@ == "dump"@) ==> (r matches Ok(a)
            && a is None && *final (ctl) == *old(ctl)),
{
    proof {
        // The three route words are pairwise distinct: their lengths differ.
        reveal_strlit("active");
        reveal_strlit("deactive");
        reveal_strlit("dump");
        assert("active"@.len() == 6);
        assert("deactive"@.len() == 8);
        assert("dump"@.len() == 4);
    }
    let frequency_hz = parse_frequency(frequency);
    if str_eq(path, "active") {
        if frequency_hz == 0 {
            return Err(
                ProfError::Collaborator("cpu sampling frequency must not be zero".to_owned()),
            );
        }
        match ctl.active(frequency_hz) {
            Ok(()) => Ok(None),
            Err(e) => Err(e),
        }
    } else if str_eq(path, "deactive") {
        match ctl.deactive() {
            Ok(()) => Ok(None),
            Err(e) => Err(e),
        }
    } else if str_eq(path, "dump") {
        let ts = now_timestamp();
        proof {
            lemma_cpu_dump_name_valid();
            lemma_timestamp_name_safe(ts@);
        }
        match ctl.dump("cpu_prof", ts.as_str()) {
            Ok(art) => {
                proof {
                    assert(valid_timestamp(ts@) && art.file_name@ == spec_dump_file_name(
                        spec_cpu_dump_name(),
                        ts@,
                        ProfKind::Cpu,
                    ));
                }
                Ok(Some(art))
            },
            Err(e) => Err(e),
        }
    } else {
        Ok(None)
    }
}

} // verus!
