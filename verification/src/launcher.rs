//! The launch as a state machine.
//!
//! A launch alternates between work that only the caller can do (look at the
//! disk, unpack the payload, run a program) and decisions. The decisions are
//! here. The caller holds a [`Phase`], carries out the [`Action`] that the
//! machine asks for, and reports what happened as an [`Event`]; [`step`]
//! answers with the next phase and the next action. The launch is over when
//! the action is [`Action::Exit`].
//!
//! ```text
//! CheckFreshness --fresh--------------------------> Execute --> Terminate
//!       |                                              ^
//!       +--absent, stale--> Invalidate --> Extract ----+
//! ```
//!
//! A failure in any phase leads straight to `Terminate`.
//!
//! Before the machine starts, [`plan_launch`] works out the paths of the
//! launch: it decodes the embedded identifiers and locates the cache entry.
//! A launch that cannot be planned is over at once, see [`refuse`]. An entry
//! that is fresh, or freshly unpacked, is ready, and the machine goes on to
//! `Execute` without waiting for anything.
//!
//! Nothing in this protocol keeps two launchers of one build apart. Both may
//! find the entry stale, and one may clear it while the other unpacks into it
//! or already runs from it. A caller that has to be safe against that must
//! serialise the launches of one cache key itself, with a lock held from the
//! probe to the end of the extraction, and should unpack into a directory of
//! its own that it renames into place.

use vstd::prelude::*;
use vstd::string::*;
use crate::cache::{
    cache_key, cache_key_text, cache_path, entry_path, is_resolution, join, joined, text_of,
};
use crate::error::{ConfigError, LaunchError, Stage};
use crate::freshness::{freshness, verdict_of, FreshnessVerdict, Timestamp};
use crate::magic::{
    build_uid, identifier_text, is_decoding, is_identifier, target_file_name,
    TARGET_FILE_NAME_BUF, TARGET_UID_BUF,
};

verus! {

/// The exit code of a launch that failed before the target program ran.
///
/// No code is set aside for the launcher: every one of them may also come
/// from a target program. The diagnostic on the standard error stream tells
/// a failure of the launcher from one of the target.
pub const FAILURE_EXIT_CODE: i32 = 1;

/// The three paths that a launch works with.
#[derive(Debug, PartialEq, Eq)]
pub struct LaunchPlan {
    /// The running executable, which carries the payload.
    pub exe_path: String,
    /// The cache entry of this build.
    pub cache_dir: String,
    /// The target program inside the cache entry.
    pub target_path: String,
}

/// How a launch ended.
#[derive(Debug, PartialEq, Eq)]
pub enum Outcome {
    /// The target program ran and exited with `code`.
    Exited { code: i32 },
    /// The launch failed and the target program never ran.
    Failed { error: LaunchError },
}

/// Where a launch stands: the work whose report the machine waits for.
#[derive(Debug, PartialEq, Eq)]
pub enum Phase {
    /// Waiting for the modification times of the cache entry and the executable.
    CheckFreshness,
    /// Waiting for the old cache entry to be cleared away. The clearing is
    /// best effort: whatever is reported of it, the launch goes on.
    Invalidate,
    /// Waiting for the payload to be unpacked.
    Extract,
    /// Waiting for the target program to exit.
    Execute,
    /// The launch is over.
    Terminate { outcome: Outcome },
}

/// What the machine asks its caller to do.
#[derive(Debug, PartialEq, Eq)]
pub enum Action {
    /// Look up the cache entry. Where it is found, read its modification time
    /// and that of the executable.
    Probe { cache_dir: String, exe_path: String },
    /// Delete the cache entry and all below it, as far as that goes.
    Clear { cache_dir: String },
    /// Unpack the payload of the executable into the cache entry.
    Extract { exe_path: String, cache_dir: String },
    /// Run the target program and wait for it.
    Execute { target_path: String },
    /// End the process with this exit code.
    Exit { code: i32 },
}

/// What the caller reports back.
#[derive(Debug, PartialEq, Eq)]
pub enum Event {
    /// The cache entry could not be looked up: it is absent or out of reach.
    CacheMissing,
    /// The cache entry is there, and these are the two modification times.
    CacheFound { cache_modified: Timestamp, exe_modified: Timestamp },
    /// The clearing is done, as far as it went.
    Cleared,
    /// The payload is unpacked.
    Extracted,
    /// The target program exited with `code`.
    Exited { code: i32 },
    /// The work could not be done; `detail` says why.
    Failed { detail: String },
}

/// The exit code that goes with an outcome: that of the target program where
/// it ran, and the failure code where it did not.
pub open spec fn exit_code_of(outcome: Outcome) -> i32 {
    match outcome {
        Outcome::Exited { code } => code,
        Outcome::Failed { .. } => FAILURE_EXIT_CODE,
    }
}

/// The action that a phase waits on.
pub open spec fn pending(plan: LaunchPlan, phase: Phase) -> Action {
    match phase {
        Phase::CheckFreshness => Action::Probe { cache_dir: plan.cache_dir, exe_path: plan.exe_path },
        Phase::Invalidate => Action::Clear { cache_dir: plan.cache_dir },
        Phase::Extract => Action::Extract { exe_path: plan.exe_path, cache_dir: plan.cache_dir },
        Phase::Execute => Action::Execute { target_path: plan.target_path },
        Phase::Terminate { outcome } => Action::Exit { code: exit_code_of(outcome) },
    }
}

/// The verdict that a report on the probe carries, if it is one.
pub open spec fn verdict_in(event: Event) -> Option<FreshnessVerdict> {
    match event {
        Event::CacheMissing => Some(FreshnessVerdict::Absent),
        Event::CacheFound { cache_modified, exe_modified } => Some(
            verdict_of(Some(cache_modified@), exe_modified@),
        ),
        _ => None,
    }
}

/// The phase that a verdict leads to: a fresh entry is run as it is, any
/// other is cleared away first.
pub open spec fn phase_for(verdict: FreshnessVerdict) -> Phase {
    match verdict {
        FreshnessVerdict::Fresh => Phase::Execute,
        FreshnessVerdict::Absent | FreshnessVerdict::Stale => Phase::Invalidate,
    }
}

/// The end of a launch whose work in `stage` was reported as `event`, where
/// that report is no success.
pub open spec fn failure(stage: Stage, event: Event) -> Phase {
    match event {
        Event::Failed { detail } => Phase::Terminate {
            outcome: Outcome::Failed { error: LaunchError::Io { stage, detail } },
        },
        _ => Phase::Terminate { outcome: Outcome::Failed { error: LaunchError::OutOfTurn { stage } } },
    }
}

/// The phase that follows `phase` on the report `event`.
pub open spec fn after(phase: Phase, event: Event) -> Phase {
    match phase {
        Phase::CheckFreshness => match verdict_in(event) {
            Some(verdict) => phase_for(verdict),
            None => failure(Stage::Probe, event),
        },
        Phase::Invalidate => Phase::Extract,
        Phase::Extract => if event is Extracted {
            Phase::Execute
        } else {
            failure(Stage::Extract, event)
        },
        Phase::Execute => match event {
            Event::Exited { code } => Phase::Terminate { outcome: Outcome::Exited { code } },
            _ => failure(Stage::Execute, event),
        },
        Phase::Terminate { outcome } => Phase::Terminate { outcome },
    }
}

/// The exit code that goes with an outcome.
pub fn exit_code(outcome: &Outcome) -> (code: i32)
    ensures
        code == exit_code_of(*outcome),
        outcome is Failed ==> code != 0,
{
    match outcome {
        Outcome::Exited { code } => *code,
        Outcome::Failed { .. } => FAILURE_EXIT_CODE,
    }
}

/// The action that `phase` waits on.
pub fn request(plan: &LaunchPlan, phase: &Phase) -> (action: Action)
    ensures
        action == pending(*plan, *phase),
{
    match phase {
        Phase::CheckFreshness => Action::Probe {
            cache_dir: plan.cache_dir.clone(),
            exe_path: plan.exe_path.clone(),
        },
        Phase::Invalidate => Action::Clear { cache_dir: plan.cache_dir.clone() },
        Phase::Extract => Action::Extract {
            exe_path: plan.exe_path.clone(),
            cache_dir: plan.cache_dir.clone(),
        },
        Phase::Execute => Action::Execute { target_path: plan.target_path.clone() },
        Phase::Terminate { outcome } => Action::Exit { code: exit_code(outcome) },
    }
}

/// The first phase of every launch, and the action it waits on.
pub fn begin(plan: &LaunchPlan) -> (first: (Phase, Action))
    ensures
        first.0 == Phase::CheckFreshness,
        first.1 == pending(*plan, Phase::CheckFreshness),
{
    let phase = Phase::CheckFreshness;
    let action = request(plan, &phase);
    (phase, action)
}

/// The end of a launch that could not be planned: it is over before it
/// began, and the action is the exit with the failure code.
pub fn refuse(error: ConfigError) -> (end: (Phase, Action))
    ensures
        end.0 == (Phase::Terminate { outcome: Outcome::Failed { error: LaunchError::Config(error) } }),
        end.1 == (Action::Exit { code: FAILURE_EXIT_CODE }),
{
    let phase = Phase::Terminate { outcome: Outcome::Failed { error: LaunchError::Config(error) } };
    (phase, Action::Exit { code: FAILURE_EXIT_CODE })
}

/// The end of a launch whose work in `stage` was reported as `event`.
fn fail(stage: Stage, event: Event) -> (phase: Phase)
    ensures
        phase == failure(stage, event),
{
    match event {
        Event::Failed { detail } => Phase::Terminate {
            outcome: Outcome::Failed { error: LaunchError::Io { stage, detail } },
        },
        _ => Phase::Terminate { outcome: Outcome::Failed { error: LaunchError::OutOfTurn { stage } } },
    }
}

/// Takes the report `event` on the work of `phase`, and answers with the next
/// phase and the action that it waits on.
pub fn step(plan: &LaunchPlan, phase: Phase, event: Event) -> (next: (Phase, Action))
    ensures
        next.0 == after(phase, event),
        next.1 == pending(*plan, next.0),
{
    let following = match phase {
        Phase::CheckFreshness => match event {
            Event::CacheMissing => Phase::Invalidate,
            Event::CacheFound { cache_modified, exe_modified } => {
                match freshness(Some(cache_modified), exe_modified) {
                    FreshnessVerdict::Fresh => Phase::Execute,
                    FreshnessVerdict::Absent | FreshnessVerdict::Stale => Phase::Invalidate,
                }
            },
            other => fail(Stage::Probe, other),
        },
        Phase::Invalidate => Phase::Extract,
        Phase::Extract => match event {
            Event::Extracted => Phase::Execute,
            other => fail(Stage::Extract, other),
        },
        Phase::Execute => match event {
            Event::Exited { code } => Phase::Terminate { outcome: Outcome::Exited { code } },
            other => fail(Stage::Execute, other),
        },
        Phase::Terminate { outcome } => Phase::Terminate { outcome },
    };
    let action = request(plan, &following);
    (following, action)
}

/// `plan` is the plan of the executable at `exe_path`, whose file name is
/// `exe_name`, for the build `build_uid` with the target program
/// `target_name`, cached under `root`.
pub open spec fn is_plan(
    plan: LaunchPlan,
    exe_path: Seq<char>,
    exe_name: Seq<char>,
    build_uid: Seq<char>,
    target_name: Seq<char>,
    root: Seq<char>,
) -> bool {
    &&& plan.exe_path@ == exe_path
    &&& plan.cache_dir@ == entry_path(root, cache_key_text(exe_name, build_uid))
    &&& plan.target_path@ == joined(plan.cache_dir@, target_name)
}

/// `plan` is a plan of the executable at `exe_path`, whose file name is
/// `exe_name`, for the build and the target program that the embedded
/// identifiers name, cached under some root: under the operator's choice
/// where there is one.
pub open spec fn is_embedded_plan(
    plan: LaunchPlan,
    exe_path: Seq<char>,
    exe_name: Seq<char>,
    cache_override: Option<Seq<char>>,
) -> bool {
    exists|root: Seq<char>|
        {
            &&& #[trigger] is_plan(
                plan,
                exe_path,
                exe_name,
                identifier_text(TARGET_UID_BUF@),
                identifier_text(TARGET_FILE_NAME_BUF@),
                root,
            )
            &&& cache_override matches Some(chosen) ==> root == chosen
        }
}

impl LaunchPlan {
    /// The plan of the executable at `exe_path` with the cache entry
    /// `cache_dir`: the target program `target_name` lies right below the entry.
    pub fn new(exe_path: &str, cache_dir: String, target_name: &str) -> (plan: LaunchPlan)
        ensures
            plan.exe_path@ == exe_path@,
            plan.cache_dir == cache_dir,
            plan.target_path@ == joined(cache_dir@, target_name@),
    {
        let target_path = join(cache_dir.as_str(), target_name);
        LaunchPlan { exe_path: String::from_str(exe_path), cache_dir, target_path }
    }
}

/// Plans the launch of the executable at `exe_path`, whose file name is
/// `exe_name`, with the operator's choice of cache root, if there is one.
///
/// The two embedded identifiers are decoded first, the build identifier
/// before the target name; then the cache entry is located. The first of
/// these that fails is the error.
pub fn plan_launch(exe_path: &str, exe_name: &str, cache_override: Option<&str>) -> (outcome: Result<
    LaunchPlan,
    ConfigError,
>)
    ensures
        outcome is Ok ==> is_identifier(TARGET_UID_BUF@) && is_identifier(TARGET_FILE_NAME_BUF@),
        outcome matches Ok(plan) ==> is_embedded_plan(plan, exe_path@, exe_name@, text_of(cache_override)),
        outcome matches Err(e) ==> if !is_identifier(TARGET_UID_BUF@) {
            is_decoding("TARGET_UID_BUF"@, TARGET_UID_BUF@, Err(e))
        } else if !is_identifier(TARGET_FILE_NAME_BUF@) {
            is_decoding("TARGET_FILE_NAME_BUF"@, TARGET_FILE_NAME_BUF@, Err(e))
        } else {
            e is NoDataDir && cache_override is None
        },
{
    let uid = match build_uid() {
        Ok(uid) => uid,
        Err(e) => {
            return Err(e);
        },
    };
    let target_name = match target_file_name() {
        Ok(name) => name,
        Err(e) => {
            return Err(e);
        },
    };
    let key = cache_key(exe_name, uid.as_str());
    let located = cache_path(cache_override, key.as_str());
    let ghost root = match cache_override {
        Some(chosen) => chosen@,
        None => {
            let data_dir = choose|data_dir: Option<Seq<char>>|
                is_resolution(data_dir, key@, located);
            match data_dir {
                Some(dir) => dir,
                None => Seq::empty(),
            }
        },
    };
    let cache_dir = match located {
        Ok(dir) => dir,
        Err(e) => {
            return Err(e);
        },
    };
    let plan = LaunchPlan::new(exe_path, cache_dir, target_name.as_str());
    assert(is_plan(
        plan,
        exe_path@,
        exe_name@,
        identifier_text(TARGET_UID_BUF@),
        identifier_text(TARGET_FILE_NAME_BUF@),
        root,
    ));
    Ok(plan)
}

} // verus!
