//! What the agent answers, and when it comes back.

use vstd::prelude::*;

use crate::json;
use crate::messages;
use crate::session;
use crate::session::AfterSession;
use crate::session::JobMsg;
use crate::session::Session;
use crate::session::SessionAction;
use crate::session::SessionEvent;
use crate::session::SessionMove;

verus! {

/// A job goes by its own name in what is reported of it, and by none where it has
/// none.
pub proof fn law_jobs_are_reported_by_their_name(job: JobMsg)
    ensures
        job.reported_id() == (match job.job_id {
            Some(id) => id@,
            None => ""@,
        }),
{
}

/// A job that gives a key is run, as it came and under that key, and goes by its own
/// name until it ends. One that gives no key is answered with the reason.
pub proof fn law_jobs_are_run_under_their_key(session: Session, job: JobMsg)
    ensures
        ({
            let done = session.move_on(SessionEvent::Job { job });
            match job.key(session.shared_secret()) {
                Ok(key) => done == (SessionMove::RunJob { job, key })
                    && Session::running_after(done) == Some(job.reported_id()),
                Err(error) => done == (SessionMove::Reply {
                    message: json::json_written(messages::error_json(job.reported_id(), error)),
                }) && Session::running_after(done) is None,
            }
        }),
{
}

/// The end of a job is reported as it was: done with the address of its result, or
/// failed with its error, under the name that the job goes by.
pub proof fn law_ends_are_reported_as_they_were(session: Session, url: String, error: String)
    ensures
        session.move_on(SessionEvent::JobEnded { result: Ok(url) }) == (SessionMove::Reply {
            message: json::json_written(messages::done_json(session.running()->0, url@)),
        }),
        session.move_on(SessionEvent::JobEnded { result: Err(error) }) == (SessionMove::Reply {
            message: json::json_written(messages::error_json(session.running()->0, error@)),
        }),
{
}

/// What is no job is answered with why, under no name; what is no text is passed
/// over; and a lost connection is told with its reason.
pub proof fn law_other_events_are_handled(session: Session, reason: String)
    ensures
        session.move_on(SessionEvent::NotAJob { reason }) == (SessionMove::Reply {
            message: json::json_written(
                messages::error_json(""@, "invalid job message: "@ + reason@),
            ),
        }),
        session.move_on(SessionEvent::Idle) == SessionMove::Read,
        session.move_on(SessionEvent::OtherFrame) == SessionMove::Read,
        session.move_on(SessionEvent::Closed) == SessionMove::Stop,
        session.move_on(SessionEvent::ReadFailed { reason }) == (SessionMove::Lost {
            error: "WS bridge read failed: "@ + reason@,
        }),
{
}

/// A job runs after the move that starts it and after no other, and while one runs
/// nothing but its end is waited for.
pub proof fn law_one_job_runs_at_a_time(session: Session, event: SessionEvent, done: SessionMove)
    ensures
        session.running() is Some ==> session.awaits(event) == event is JobEnded,
        session.running() is None ==> session.awaits(event) == !(event is JobEnded),
        Session::running_after(done) is Some == done is RunJob,
        done matches SessionMove::RunJob { job, key } ==> Session::running_after(done) == Some(
            job.reported_id(),
        ),
{
}

/// An action shows what it holds.
pub proof fn law_session_actions_show_what_they_hold(action: SessionAction)
    ensures
        action@ == (match action {
            SessionAction::Read => SessionMove::Read,
            SessionAction::Reply { message } => SessionMove::Reply { message: message@ },
            SessionAction::RunJob { job, key } => SessionMove::RunJob { job, key: key@ },
            SessionAction::Stop => SessionMove::Stop,
            SessionAction::Lost { error } => SessionMove::Lost { error: error@ },
        }),
{
}

/// Every wait is two seconds longer than the one before, until one is 30 seconds or
/// more: that one stays. The first is one second.
pub proof fn law_waits_grow_by_two(backoff: u64, n: nat)
    ensures
        backoff < 30 ==> session::longer(backoff) == backoff + 2,
        backoff >= 30 ==> session::longer(backoff) == backoff,
        session::backoff_after(0) == 1,
        session::backoff_after(n + 1) == (if session::backoff_after(n) < 30 {
            session::backoff_after(n) + 2
        } else {
            session::backoff_after(n)
        }),
{
    session::law_backoff_grows_to_31(n);
}

/// The agent comes back just after a session that did not end well, unless it is
/// shut down, and then after the wait that is due.
pub proof fn law_the_agent_comes_back_after_errors(ended_well: bool, shutdown: bool, backoff: u64)
    ensures
        ended_well || shutdown ==> session::next_after(ended_well, shutdown, backoff)
            == AfterSession::Finish,
        !ended_well && !shutdown ==> session::next_after(ended_well, shutdown, backoff) == (
        AfterSession::Reconnect { wait_secs: backoff }),
{
}

} // verus!
