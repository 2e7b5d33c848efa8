//! What holds of a job from its first step to its last.

use vstd::prelude::*;

use crate::job::JobEvent;
use crate::job::JobMove;
use crate::job::JobRun;
use crate::job::JobStage;
use crate::messages;
use crate::payload;

verus! {

/// The job went through these states, from its start, by these events.
pub open spec fn is_run(states: Seq<JobRun>, events: Seq<JobEvent>) -> bool {
    &&& states.len() == events.len() + 1
    &&& states[0].at_start()
    &&& forall|i: int| 0 <= i < events.len() ==> #[trigger] steps_at(states, events, i)
}

/// The event at place `i` was waited for, and led to the next state.
pub open spec fn steps_at(states: Seq<JobRun>, events: Seq<JobEvent>, i: int) -> bool {
    states[i].awaits(events[i]) && states[i].goes_to(events[i], states[i + 1])
}

/// How far a stage is from the start, at most.
pub open spec fn rank(stage: JobStage) -> int {
    match stage {
        JobStage::Download => 0,
        JobStage::Workspace => 1,
        JobStage::Luks => 2,
        JobStage::Unpack => 3,
        JobStage::Script => 4,
        JobStage::Container => 5,
        JobStage::Zip => 6,
        JobStage::Placeholder => 7,
        JobStage::Read => 8,
        JobStage::TearDown => 9,
        JobStage::Failing => 9,
        JobStage::Upload => 10,
        JobStage::Receipt => 11,
        JobStage::Removing => 12,
        JobStage::Finished => 13,
    }
}

proof fn lemma_rank_grows(states: Seq<JobRun>, events: Seq<JobEvent>, i: int)
    requires
        is_run(states, events),
        0 <= i <= events.len(),
    ensures
        rank(states[i].stage()) >= i,
        states[i].job() == states[0].job(),
        states[i].key() == states[0].key(),
        states[i].wf(),
    decreases i,
{
    if i > 0 {
        lemma_rank_grows(states, events, i - 1);
        assert(steps_at(states, events, i - 1));
    }
}

/// Every job ends: it takes at most thirteen steps, whatever happens.
pub proof fn law_every_job_ends(states: Seq<JobRun>, events: Seq<JobEvent>)
    requires
        is_run(states, events),
    ensures
        events.len() <= 13,
        events.len() == 13 ==> states.last().stage() == JobStage::Finished,
{
    lemma_rank_grows(states, events, events.len() as int);
}

/// How often the LUKS container was set up.
pub open spec fn set_ups(events: Seq<JobEvent>) -> int
    decreases events.len(),
{
    if events.len() == 0 {
        0
    } else {
        set_ups(events.drop_last()) + if events.last() matches JobEvent::LuksSetUp { done: true } {
            1int
        } else {
            0
        }
    }
}

/// How often the LUKS container was torn down.
pub open spec fn teardowns(events: Seq<JobEvent>) -> int
    decreases events.len(),
{
    if events.len() == 0 {
        0
    } else {
        teardowns(events.drop_last()) + if events.last() is TornDown {
            1int
        } else {
            0
        }
    }
}

/// How often the temporary directory was made.
pub open spec fn makings(events: Seq<JobEvent>) -> int
    decreases events.len(),
{
    if events.len() == 0 {
        0
    } else {
        makings(events.drop_last()) + if events.last() matches JobEvent::WorkspaceMade {
            made: true,
        } {
            1int
        } else {
            0
        }
    }
}

/// How often the temporary directory was removed.
pub open spec fn removals(events: Seq<JobEvent>) -> int
    decreases events.len(),
{
    if events.len() == 0 {
        0
    } else {
        removals(events.drop_last()) + if events.last() is WorkspaceRemoved {
            1int
        } else {
            0
        }
    }
}

proof fn lemma_front_is_run(states: Seq<JobRun>, events: Seq<JobEvent>)
    requires
        is_run(states, events),
        events.len() > 0,
    ensures
        is_run(states.drop_last(), events.drop_last()),
        steps_at(states, events, events.len() - 1),
        states.drop_last().last() == states[events.len() - 1],
        states.last() == states[events.len() as int],
{
    assert forall|i: int| 0 <= i < events.drop_last().len() implies #[trigger] steps_at(
        states.drop_last(),
        events.drop_last(),
        i,
    ) by {
        assert(steps_at(states, events, i));
    }
}

/// All that a job sets up is cleaned up, once. At every moment the LUKS container
/// was torn down as often as it was set up, but for one that is mounted now, and
/// the temporary directory removed as often as it was made, but for one that is
/// there now. Either is set up at most once. So when a job is over, well or with an
/// error, both counts agree.
pub proof fn law_all_is_cleaned_up(states: Seq<JobRun>, events: Seq<JobEvent>)
    requires
        is_run(states, events),
    ensures
        ({
            let stage = states.last().stage();
            &&& 0 <= set_ups(events) <= 1 && 0 <= makings(events) <= 1
            &&& set_ups(events) - teardowns(events) == (if JobRun::mounted(stage) {
                1int
            } else {
                0
            })
            &&& makings(events) - removals(events) == (if JobRun::has_workspace(stage) {
                1int
            } else {
                0
            })
            &&& stage == JobStage::Finished ==> teardowns(events) == set_ups(events) && removals(
                events,
            ) == makings(events)
        }),
{
    lemma_counts(states, events);
}

proof fn lemma_counts(states: Seq<JobRun>, events: Seq<JobEvent>)
    requires
        is_run(states, events),
    ensures
        ({
            let stage = states.last().stage();
            &&& 0 <= set_ups(events) <= 1 && 0 <= makings(events) <= 1
            &&& rank(stage) <= 2 ==> set_ups(events) == 0
            &&& rank(stage) <= 1 ==> makings(events) == 0
            &&& set_ups(events) - teardowns(events) == (if JobRun::mounted(stage) {
                1int
            } else {
                0
            })
            &&& makings(events) - removals(events) == (if JobRun::has_workspace(stage) {
                1int
            } else {
                0
            })
        }),
    decreases events.len(),
{
    if events.len() > 0 {
        lemma_front_is_run(states, events);
        lemma_counts(states.drop_last(), events.drop_last());
    }
}

proof fn lemma_input_hash(states: Seq<JobRun>, events: Seq<JobEvent>, i: int)
    requires
        is_run(states, events),
        2 <= i <= events.len(),
    ensures
        events[0] is Downloaded,
        states[i].input_hash() == payload::integrity_hash(states[0].plain_payload(events[0])),
    decreases i,
{
    assert(steps_at(states, events, 0));
    assert(steps_at(states, events, 1));
    assert(steps_at(states, events, i - 1));
    lemma_rank_grows(states, events, i - 1);
    if i > 2 {
        lemma_input_hash(states, events, i - 1);
    }
}

/// What is uploaded is what the job made of what it was given. When the receipt goes
/// out, the step before uploaded a body that opens, under the job's key, to the
/// packed result that the agent had read, after the LUKS container was torn down;
/// and the receipt opens to one that binds the hash of the payload that was
/// downloaded and the hash of that result.
pub proof fn law_receipt_binds_what_went_in_and_out(
    states: Seq<JobRun>,
    events: Seq<JobEvent>,
    k: int,
)
    requires
        is_run(states, events),
        0 <= k < events.len(),
        states[k].move_on(events[k]) matches Ok(JobMove::UploadReceipt { .. }),
    ensures
        k >= 3,
        events[0] is Downloaded,
        events[k - 2] matches JobEvent::ResultRead { blob: Some(_) },
        events[k - 1] is TornDown,
        ({
            let start = states[0];
            let blob = events[k - 2]->blob->0@;
            let result = states[k - 1].move_on(events[k - 1]);
            let receipt = states[k].move_on(events[k]);
            &&& result is Ok && result->Ok_0 is UploadResult
            &&& result->Ok_0->UploadResult_url == start.job().result_upload_url@
            &&& payload::decrypted(result->Ok_0->UploadResult_body, start.key()) == Ok::<
                Seq<u8>,
                payload::PayloadError,
            >(blob)
            &&& receipt->Ok_0->UploadReceipt_url == start.job().result_upload_url@ + ".receipt"@
            &&& payload::decrypted(receipt->Ok_0->UploadReceipt_body, start.key()) == Ok::<
                Seq<u8>,
                payload::PayloadError,
            >(
                messages::receipt_of(
                    start.job_name(),
                    payload::integrity_hash(start.plain_payload(events[0])),
                    payload::integrity_hash(blob),
                ),
            )
        }),
{
    assert(steps_at(states, events, k));
    assert(k >= 1);
    assert(steps_at(states, events, k - 1));
    assert(k >= 2);
    assert(steps_at(states, events, k - 2));
    assert(k >= 3);
    lemma_rank_grows(states, events, k);
    lemma_rank_grows(states, events, k - 1);
    lemma_input_hash(states, events, k);
}

/// The error that a job ends with is the one that stopped it: an error at one step
/// is what comes out in the end, and nothing is uploaded after it.
pub proof fn law_the_first_error_is_reported(
    states: Seq<JobRun>,
    events: Seq<JobEvent>,
    j: int,
    k: int,
)
    requires
        is_run(states, events),
        0 <= j < k < events.len(),
        states[j].leads_to(events[j]) is Err,
    ensures
        !(states[k].move_on(events[k]) matches Ok(JobMove::UploadResult { .. })),
        !(states[k].move_on(events[k]) matches Ok(JobMove::UploadReceipt { .. })),
        !(states[k].move_on(events[k]) matches Ok(JobMove::RunContainer { .. })),
        states[k].stage() == JobStage::Failing || states[k].stage() == JobStage::Removing,
        states[k].move_on(events[k]) is Err ==> states[k].move_on(events[k])->Err_0
            == states[j].leads_to(events[j])->Err_0,
        states[k].move_on(events[k]) matches Ok(done) ==> done is RemoveWorkspace,
{
    lemma_error_kept(states, events, j, k);
}

proof fn lemma_error_kept(states: Seq<JobRun>, events: Seq<JobEvent>, j: int, k: int)
    requires
        is_run(states, events),
        0 <= j < k < events.len(),
        states[j].leads_to(events[j]) is Err,
    ensures
        states[k].stage() == JobStage::Failing || states[k].stage() == JobStage::Removing,
        states[k].failure() == Some(states[j].leads_to(events[j])->Err_0),
        states[k].awaits(events[k]),
    decreases k,
{
    assert(steps_at(states, events, k));
    assert(steps_at(states, events, k - 1));
    if k - 1 > j {
        lemma_error_kept(states, events, j, k - 1);
    }
}

} // verus!
