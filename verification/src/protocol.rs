//! What holds of every launch.
//!
//! A launch is a run of the machine in [`crate::launcher`]: a first phase and
//! the reports that come in, one after the other. This module says which
//! actions such a run asks for, and proves what every run has in common with
//! every other: when the payload is unpacked and when it is not, that the old
//! entry goes before the new one comes, and where the exit code is from.

use vstd::prelude::*;
use crate::error::{LaunchError, Stage};
use crate::freshness::{FreshnessVerdict, Timestamp};
use crate::launcher::{
    after, exit_code_of, pending, verdict_in, Action, Event, LaunchPlan, Outcome, Phase,
    FAILURE_EXIT_CODE,
};

verus! {

/// The actions that the machine asks for, in order, while the reports
/// `events` come in from `phase` on. The action that `phase` itself waits on
/// is not among them: it was asked for before.
pub open spec fn actions_of(plan: LaunchPlan, phase: Phase, events: Seq<Event>) -> Seq<Action>
    decreases events.len(),
{
    if events.len() == 0 {
        Seq::empty()
    } else {
        let next = after(phase, events[0]);
        seq![pending(plan, next)] + actions_of(plan, next, events.drop_first())
    }
}

/// The phase that the machine is in when the reports `events` have come in
/// from `phase` on.
pub open spec fn phase_after(phase: Phase, events: Seq<Event>) -> Phase
    decreases events.len(),
{
    if events.len() == 0 {
        phase
    } else {
        phase_after(after(phase, events[0]), events.drop_first())
    }
}

/// `action` changes the cache entry: it clears it or unpacks into it.
pub open spec fn touches_cache(action: Action) -> bool {
    action is Clear || action is Extract
}

/// The cache entry of `phase` is settled: the launch is running the target
/// program, or it is over.
pub open spec fn is_settled(phase: Phase) -> bool {
    phase is Execute || phase is Terminate
}

/// A run asks for one action for each report.
pub proof fn lemma_one_action_for_each_event(plan: LaunchPlan, phase: Phase, events: Seq<Event>)
    ensures
        actions_of(plan, phase, events).len() == events.len(),
    decreases events.len(),
{
    if events.len() > 0 {
        lemma_one_action_for_each_event(plan, after(phase, events[0]), events.drop_first());
    }
}

/// The action that a run asks for on its `i`-th report is the one that the
/// phase reached by then waits on.
pub proof fn lemma_action_is_pending(plan: LaunchPlan, phase: Phase, events: Seq<Event>, i: int)
    requires
        0 <= i < events.len(),
    ensures
        actions_of(plan, phase, events).len() == events.len(),
        actions_of(plan, phase, events)[i] == pending(plan, phase_after(phase, events.take(i + 1))),
    decreases events.len(),
{
    lemma_one_action_for_each_event(plan, phase, events);
    let next = after(phase, events[0]);
    let rest = events.drop_first();
    lemma_one_action_for_each_event(plan, next, rest);
    if i == 0 {
        assert(events.take(1).drop_first() =~= Seq::<Event>::empty());
        assert(phase_after(next, events.take(1).drop_first()) == next);
    } else {
        lemma_action_is_pending(plan, next, rest, i - 1);
        assert(events.take(i + 1).drop_first() =~= rest.take(i));
        assert(events.take(i + 1)[0] == events[0]);
    }
}

/// Once the cache entry is settled it stays so, whatever is reported.
pub proof fn lemma_settled_stays_settled(phase: Phase, events: Seq<Event>)
    requires
        is_settled(phase),
    ensures
        is_settled(phase_after(phase, events)),
    decreases events.len(),
{
    if events.len() > 0 {
        lemma_settled_stays_settled(after(phase, events[0]), events.drop_first());
    }
}

/// Once the cache entry is settled no action touches it again.
pub proof fn lemma_settled_cache_is_left_alone(plan: LaunchPlan, phase: Phase, events: Seq<Event>)
    requires
        is_settled(phase),
    ensures
        forall|i: int|
            0 <= i < actions_of(plan, phase, events).len() ==> !touches_cache(
                #[trigger] actions_of(plan, phase, events)[i],
            ),
{
    lemma_one_action_for_each_event(plan, phase, events);
    assert forall|i: int| 0 <= i < events.len() implies !touches_cache(
        #[trigger] actions_of(plan, phase, events)[i],
    ) by {
        lemma_action_is_pending(plan, phase, events, i);
        lemma_settled_stays_settled(phase, events.take(i + 1));
    }
}

/// A launch that is over stays over, and every further action is the exit
/// with the code of its outcome.
pub proof fn lemma_terminated_only_exits(plan: LaunchPlan, outcome: Outcome, events: Seq<Event>)
    ensures
        phase_after(Phase::Terminate { outcome }, events) == (Phase::Terminate { outcome }),
        forall|i: int|
            0 <= i < actions_of(plan, Phase::Terminate { outcome }, events).len() ==> (
            #[trigger] actions_of(plan, Phase::Terminate { outcome }, events)[i]) == (Action::Exit {
                code: exit_code_of(outcome),
            }),
    decreases events.len(),
{
    if events.len() > 0 {
        lemma_terminated_only_exits(plan, outcome, events.drop_first());
    }
}

/// An entry that is not there is judged absent, and the payload is unpacked:
/// the first action clears the place, the second unpacks into it.
pub proof fn lemma_absent_entry_is_unpacked(plan: LaunchPlan, events: Seq<Event>)
    requires
        events.len() >= 2,
        events[0] is CacheMissing,
    ensures
        verdict_in(events[0]) == Some(FreshnessVerdict::Absent),
        actions_of(plan, Phase::CheckFreshness, events)[0] == (Action::Clear {
            cache_dir: plan.cache_dir,
        }),
        actions_of(plan, Phase::CheckFreshness, events)[1] == (Action::Extract {
            exe_path: plan.exe_path,
            cache_dir: plan.cache_dir,
        }),
{
    lemma_cleared_then_unpacked(plan, events);
}

/// An entry that was modified before the executable was is judged stale, and
/// it is removed before the payload is unpacked again: the first action
/// clears the entry, the second unpacks into it.
pub proof fn lemma_stale_entry_is_cleared_then_unpacked(
    plan: LaunchPlan,
    cache_modified: Timestamp,
    exe_modified: Timestamp,
    events: Seq<Event>,
)
    requires
        events.len() >= 2,
        events[0] == (Event::CacheFound { cache_modified, exe_modified }),
        cache_modified@ < exe_modified@,
    ensures
        verdict_in(events[0]) == Some(FreshnessVerdict::Stale),
        actions_of(plan, Phase::CheckFreshness, events)[0] == (Action::Clear {
            cache_dir: plan.cache_dir,
        }),
        actions_of(plan, Phase::CheckFreshness, events)[1] == (Action::Extract {
            exe_path: plan.exe_path,
            cache_dir: plan.cache_dir,
        }),
{
    lemma_cleared_then_unpacked(plan, events);
}

/// A launch whose probe does not find a fresh entry clears, then unpacks.
proof fn lemma_cleared_then_unpacked(plan: LaunchPlan, events: Seq<Event>)
    requires
        events.len() >= 2,
        verdict_in(events[0]) matches Some(verdict) && verdict != FreshnessVerdict::Fresh,
    ensures
        actions_of(plan, Phase::CheckFreshness, events)[0] == (Action::Clear {
            cache_dir: plan.cache_dir,
        }),
        actions_of(plan, Phase::CheckFreshness, events)[1] == (Action::Extract {
            exe_path: plan.exe_path,
            cache_dir: plan.cache_dir,
        }),
{
    let rest = events.drop_first();
    assert(after(Phase::CheckFreshness, events[0]) == Phase::Invalidate);
    assert(rest[0] == events[1]);
    assert(after(Phase::Invalidate, rest[0]) == Phase::Extract);
    let tail = actions_of(plan, Phase::Invalidate, rest);
    assert(tail[0] == pending(plan, Phase::Extract));
    assert(actions_of(plan, Phase::CheckFreshness, events)[1] == tail[0]);
}

/// An entry that was modified when the executable was, or later, is judged
/// fresh, and it is run as it is: the first action runs the target program,
/// and no action of the launch clears the entry or unpacks into it.
pub proof fn lemma_fresh_entry_is_never_unpacked(
    plan: LaunchPlan,
    cache_modified: Timestamp,
    exe_modified: Timestamp,
    events: Seq<Event>,
)
    requires
        events.len() >= 1,
        events[0] == (Event::CacheFound { cache_modified, exe_modified }),
        cache_modified@ >= exe_modified@,
    ensures
        verdict_in(events[0]) == Some(FreshnessVerdict::Fresh),
        actions_of(plan, Phase::CheckFreshness, events)[0] == (Action::Execute {
            target_path: plan.target_path,
        }),
        forall|i: int|
            0 <= i < actions_of(plan, Phase::CheckFreshness, events).len() ==> !touches_cache(
                #[trigger] actions_of(plan, Phase::CheckFreshness, events)[i],
            ),
{
    let rest = events.drop_first();
    assert(after(Phase::CheckFreshness, events[0]) == Phase::Execute);
    lemma_settled_cache_is_left_alone(plan, Phase::Execute, rest);
    let all = actions_of(plan, Phase::CheckFreshness, events);
    let tail = actions_of(plan, Phase::Execute, rest);
    assert forall|i: int| 0 <= i < all.len() implies !touches_cache(#[trigger] all[i]) by {
        if i > 0 {
            assert(all[i] == tail[i - 1]);
        }
    }
}

/// The launch ends with the exit code of the target program, whatever it is.
pub proof fn lemma_exit_code_is_forwarded(plan: LaunchPlan, code: i32)
    ensures
        after(Phase::Execute, Event::Exited { code }) == (Phase::Terminate {
            outcome: Outcome::Exited { code },
        }),
        pending(plan, after(Phase::Execute, Event::Exited { code })) == (Action::Exit { code }),
{
}

/// When the payload cannot be unpacked the launch is over: every action from
/// then on is the exit with the failure code, which is not zero, and the
/// target program is never run.
pub proof fn lemma_failed_extraction_never_executes(
    plan: LaunchPlan,
    detail: String,
    events: Seq<Event>,
)
    requires
        events.len() >= 1,
        events[0] == (Event::Failed { detail }),
    ensures
        phase_after(Phase::Extract, events) is Terminate,
        FAILURE_EXIT_CODE != 0,
        forall|i: int|
            0 <= i < actions_of(plan, Phase::Extract, events).len() ==> (#[trigger] actions_of(
                plan,
                Phase::Extract,
                events,
            )[i]) == (Action::Exit { code: FAILURE_EXIT_CODE }),
{
    let outcome = Outcome::Failed {
        error: LaunchError::Io { stage: Stage::Extract, detail },
    };
    let rest = events.drop_first();
    assert(after(Phase::Extract, events[0]) == (Phase::Terminate { outcome }));
    lemma_terminated_only_exits(plan, outcome, rest);
    let all = actions_of(plan, Phase::Extract, events);
    let tail = actions_of(plan, Phase::Terminate { outcome }, rest);
    assert forall|i: int| 0 <= i < all.len() implies (#[trigger] all[i]) == (Action::Exit {
        code: FAILURE_EXIT_CODE,
    }) by {
        if i > 0 {
            assert(all[i] == tail[i - 1]);
        }
    }
}

} // verus!
