//! Submission dispatch: the at-most-one submission guard, the
//! process-wide inventory cache, and the assembly of a crash report from
//! a captured snapshot.

use crate::capture::{format_exception_address, format_exception_code, spec_exception_address,
    spec_exception_code, CrashData};
use crate::inventory::{load_order_json, LoadOrder, LoadOrderEntryV};
use crate::report::{first_error, BuilderV, CrashReportBuilder, CreateCrashReport, LoadOrderDataV};
use crate::CtdError;
use vstd::prelude::*;

verus! {

/// The integration identifier this dispatcher reports under.
pub const GAME_ID: &'static str = "cyberpunk-2077";

/// Errors that can occur while preparing or submitting a report.
#[derive(Debug, Clone)]
pub enum ReportError {
    /// The crash report failed validation.
    BuildFailed(String),
    /// The transport client could not be constructed.
    ClientCreation(String),
    /// The submission itself failed.
    Submission(String),
    /// A submission is already in progress.
    AlreadySubmitting,
}

/// The descriptive text of a report error.
pub open spec fn report_error_text(e: ReportError) -> Seq<char> {
    match e {
        ReportError::BuildFailed(m) => "Failed to build crash report: "@ + m@,
        ReportError::ClientCreation(m) => "Failed to create API client: "@ + m@,
        ReportError::Submission(m) => "Failed to submit crash report: "@ + m@,
        ReportError::AlreadySubmitting => "Crash report submission already in progress"@,
    }
}

impl ReportError {
    /// Renders the error for logs and operators.
    pub fn message(&self) -> (r: String)
        ensures
            r@ == report_error_text(*self),
    {
        let mut out = String::new();
        match self {
            ReportError::BuildFailed(m) => {
                out.append("Failed to build crash report: ");
                out.append(m.as_str());
            },
            ReportError::ClientCreation(m) => {
                out.append("Failed to create API client: ");
                out.append(m.as_str());
            },
            ReportError::Submission(m) => {
                out.append("Failed to submit crash report: ");
                out.append(m.as_str());
            },
            ReportError::AlreadySubmitting => {
                out.append("Crash report submission already in progress");
            },
        }
        out
    }
}

/// What acquiring the guard does: succeeds exactly when no submission is
/// in flight, and leaves the guard held either way.
pub open spec fn spec_acquire(in_flight: bool) -> (bool, bool) {
    if !in_flight {
        (true, true)
    } else {
        (false, true)
    }
}

/// The single-flag guard that admits at most one in-flight submission.
#[derive(Debug, Clone, PartialEq, Eq, Structural)]
pub struct SubmissionGuard {
    /// Whether a submission is currently in flight.
    pub in_flight: bool,
}

impl SubmissionGuard {
    /// The initial state: no submission in flight.
    pub fn new() -> (r: Self)
        ensures
            !r.in_flight,
    {
        SubmissionGuard { in_flight: false }
    }

    /// Tries to claim the one submission slot; the result says whether
    /// this caller owns the submission, and the slot is held afterwards
    /// either way.
    pub fn begin_submission(&mut self) -> (acquired: bool)
        ensures
            acquired == spec_acquire(old(self).in_flight).0,
            final(self).in_flight == spec_acquire(old(self).in_flight).1,
    {
        if self.in_flight {
            false
        } else {
            self.in_flight = true;
            true
        }
    }

    /// Releases the slot once the submission attempt is over, whatever
    /// its outcome.
    pub fn finish_submission(&mut self)
        ensures
            !final(self).in_flight,
    {
        self.in_flight = false;
    }
}

/// At most one submission: from an idle guard the first claim succeeds,
/// and any further claim before release is refused and changes nothing,
/// so two concurrent submissions resolve to exactly one owner.
pub proof fn lemma_at_most_one_submission()
    ensures
        spec_acquire(false).0,
        spec_acquire(false).1,
        !spec_acquire(spec_acquire(false).1).0,
        spec_acquire(spec_acquire(false).1).1,
{
}

/// The process-wide inventory cache: written at most once, the first
/// successful scan wins, read-only afterwards.
#[derive(Debug, Clone)]
pub struct InventoryCache {
    /// The cached inventory, once a scan succeeded.
    pub cached: Option<LoadOrder>,
}

impl InventoryCache {
    /// The empty cache.
    pub fn new() -> (r: Self)
        ensures
            r.cached is None,
    {
        InventoryCache { cached: None }
    }

    /// Stores the scan result unless one is already cached, and returns
    /// the entry count of whichever inventory the cache now holds: the
    /// first successful scan wins.
    pub fn scan_and_cache(&mut self, scanned: LoadOrder) -> (count: usize)
        ensures
            old(self).cached is Some ==> *final(self) == *old(self) && count == match old(
                self,
            ).cached {
                Option::Some(lo) => lo@.len(),
                Option::None => 0,
            },
            old(self).cached is None ==> final(self).cached == Some(scanned) && count
                == scanned@.len(),
    {
        match &self.cached {
            Option::Some(lo) => lo.len(),
            Option::None => {
                let count = scanned.len();
                self.cached = Some(scanned);
                count
            },
        }
    }

    /// Returns the cached inventory; callers must know a scan was cached.
    pub fn get_cached(&self) -> (r: &LoadOrder)
        requires
            self.cached is Some,
        ensures
            Some(*r) == self.cached,
    {
        match &self.cached {
            Option::Some(lo) => lo,
            Option::None => {
                proof {
                    assert(false);
                }
                unreached()
            },
        }
    }

    /// Returns a clone of the cached inventory, or an empty one when no
    /// scan has been cached.
    pub fn get_cached_or_empty(&self) -> (r: LoadOrder)
        ensures
            match self.cached {
                Option::Some(lo) => r@ =~= lo@,
                Option::None => r@ =~= Seq::<LoadOrderEntryV>::empty(),
            },
    {
        match &self.cached {
            Option::Some(lo) => lo.clone(),
            Option::None => LoadOrder::new(),
        }
    }
}

/// The builder state `build_report` submits for validation, with the
/// timestamp normalized: validation does not depend on its value once it
/// is present.
pub open spec fn report_builder_model(
    cd: &CrashData,
    lo: Seq<LoadOrderEntryV>,
    game_version: Seq<char>,
    script_extender_version: Option<Seq<char>>,
    os_version: Option<Seq<char>>,
) -> BuilderV {
    BuilderV {
        game_id: Some("cyberpunk-2077"@),
        stack_trace: Some(cd.stack_trace@),
        crash_hash: None,
        exception_code: Some(spec_exception_code(cd.exception_code)),
        exception_address: Some(spec_exception_address(cd.exception_address)),
        faulting_module: match cd.faulting_module {
            Option::Some(ref m) => Some(m@),
            Option::None => None,
        },
        game_version: Some(game_version),
        script_extender_version,
        os_version,
        load_order_data: Some(LoadOrderDataV::V1(lo)),
        crashed_at: Some(0),
        notes: None,
    }
}

/// Builds a crash report from a captured snapshot, the cached inventory
/// and the host-supplied versions, stamping the current time.
pub fn build_report(
    crash_data: &CrashData,
    load_order: LoadOrder,
    game_version: &str,
    script_extender_version: Option<String>,
    os_version: Option<String>,
) -> (r: Result<CreateCrashReport, ReportError>)
    ensures
        ({
            let model = report_builder_model(
                crash_data,
                load_order@,
                game_version@,
                match script_extender_version {
                    Option::Some(v) => Some(v@),
                    Option::None => None,
                },
                match os_version {
                    Option::Some(v) => Some(v@),
                    Option::None => None,
                },
            );
            match first_error(model) {
                Some(m) => r matches Err(ReportError::BuildFailed(t)) && t@ == "Validation error: "@
                    + m,
                None => r matches Ok(rep) && rep@.schema_version == 1 && rep@.game_id
                    == "cyberpunk-2077"@ && rep@.stack_trace == crash_data.stack_trace@
                    && rep@.exception_code == Some(spec_exception_code(crash_data.exception_code))
                    && rep@.exception_address == Some(
                    spec_exception_address(crash_data.exception_address),
                ) && rep@.faulting_module == (match crash_data.faulting_module {
                    Option::Some(ref m) => Some(m@),
                    Option::None => None::<Seq<char>>,
                }) && rep@.game_version == game_version@ && rep@.script_extender_version == (
                match script_extender_version {
                    Option::Some(ref v) => Some(v@),
                    Option::None => None::<Seq<char>>,
                }) && rep@.os_version == (match os_version {
                    Option::Some(ref v) => Some(v@),
                    Option::None => None::<Seq<char>>,
                }) && rep@.load_order_json == load_order_json(load_order@) && rep@.plugin_count
                    == load_order@.len() && rep@.crash_hash is None && rep@.notes is None,
            }
        }),
{
    let ghost model = report_builder_model(
        crash_data,
        load_order@,
        game_version@,
        match script_extender_version {
            Option::Some(ref v) => Some(v@),
            Option::None => None,
        },
        match os_version {
            Option::Some(ref v) => Some(v@),
            Option::None => None,
        },
    );
    let code = format_exception_code(crash_data.exception_code);
    let addr = format_exception_address(crash_data.exception_address);
    let mut builder = CreateCrashReport::builder().game_id("cyberpunk-2077").game_version(
        game_version,
    ).stack_trace(crash_data.stack_trace.as_str()).exception_code(code.as_str()).exception_address(
        addr.as_str(),
    ).load_order(load_order).crashed_now();
    match &crash_data.faulting_module {
        Option::Some(m) => {
            builder = builder.faulting_module(m.as_str());
        },
        Option::None => {},
    }
    match &script_extender_version {
        Option::Some(v) => {
            builder = builder.script_extender_version(v.as_str());
        },
        Option::None => {},
    }
    match &os_version {
        Option::Some(v) => {
            builder = builder.os_version(v.as_str());
        },
        Option::None => {},
    }
    proof {
        assert(first_error(builder@) == first_error(model));
    }
    match builder.build() {
        Result::Ok(rep) => Ok(rep),
        Result::Err(e) => {
            let msg = e.message();
            Err(ReportError::BuildFailed(msg))
        },
    }
}

} // verus!
