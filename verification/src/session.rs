//! A session with the matchmaker: what the agent does with each message, how it
//! answers jobs, and when it connects again.

use vstd::prelude::*;
use vstd::string::*;

use crate::json;
use crate::keys;
use crate::messages;
use crate::text;

verus! {

/// The time between two heartbeats, in seconds.
pub const HEARTBEAT_INTERVAL_SECS: u64 = 20;

/// A job as the matchmaker sends it.
#[derive(Debug)]
pub struct JobMsg {
    pub job_id: Option<String>,
    pub encrypted_job_link: String,
    pub result_upload_url: String,
    pub enc_key_b64: Option<String>,
    pub salt_b64: Option<String>,
    pub script: Option<String>,
    pub image: Option<String>,
    pub job_type: Option<String>,
}

impl JobMsg {
    /// The key of the job, or the text of the error.
    pub open spec fn key(self, shared_secret: Seq<u8>) -> Result<Seq<u8>, Seq<char>> {
        keys::job_key_of(
            shared_secret,
            text::opt_text(self.salt_b64),
            text::opt_text(self.enc_key_b64),
        )
    }

    /// The name of the job in what the agent reports; empty where it has none.
    pub open spec fn reported_id(self) -> Seq<char> {
        text::or_text(self.job_id, ""@)
    }
}

/// What happened.
#[derive(Debug)]
pub enum SessionEvent {
    /// Nothing came in time.
    Idle,
    /// The connection could not be read: it was dropped.
    ReadFailed { reason: String },
    /// The matchmaker closed the connection.
    Closed,
    /// Something came that is no text.
    OtherFrame,
    /// A text came that is no job.
    NotAJob { reason: String },
    /// A job came.
    Job { job: JobMsg },
    /// The job ended: with the address of its result, or an error.
    JobEnded { result: Result<String, String> },
}

/// What the agent does next.
#[derive(Debug)]
pub enum SessionAction {
    /// Read the next message.
    Read,
    /// Send an answer if it can be sent, then read.
    Reply { message: String },
    /// Run the job under this key.
    RunJob { job: JobMsg, key: [u8; 32] },
    /// End the session: the matchmaker ended it.
    Stop,
    /// End the session with an error: the connection was lost and is to be made
    /// again.
    Lost { error: String },
}

/// The contents of a `SessionAction`.
pub enum SessionMove {
    Read,
    Reply { message: Seq<char> },
    RunJob { job: JobMsg, key: Seq<u8> },
    Stop,
    Lost { error: Seq<char> },
}

impl View for SessionAction {
    type V = SessionMove;

    open spec fn view(&self) -> SessionMove {
        match self {
            SessionAction::Read => SessionMove::Read,
            SessionAction::Reply { message } => SessionMove::Reply { message: message@ },
            SessionAction::RunJob { job, key } => SessionMove::RunJob { job: *job, key: key@ },
            SessionAction::Stop => SessionMove::Stop,
            SessionAction::Lost { error } => SessionMove::Lost { error: error@ },
        }
    }
}

/// A session, and the name of the job that runs in it, if one does.
#[derive(Debug)]
pub struct Session {
    shared_secret: [u8; 32],
    running: Option<String>,
}

impl Session {
    /// The secret shared with the client.
    pub closed spec fn shared_secret(self) -> Seq<u8> {
        self.shared_secret@
    }

    /// The name of the job that runs.
    pub closed spec fn running(self) -> Option<Seq<char>> {
        text::opt_text(self.running)
    }

    /// The event is one that can happen now: a job ends only while one runs, and
    /// nothing else happens meanwhile.
    pub open spec fn awaits(self, event: SessionEvent) -> bool {
        event is JobEnded == self.running() is Some
    }

    /// What the agent does when the event happens.
    pub open spec fn move_on(self, event: SessionEvent) -> SessionMove {
        match event {
            SessionEvent::Idle => SessionMove::Read,
            SessionEvent::OtherFrame => SessionMove::Read,
            SessionEvent::ReadFailed { reason } => SessionMove::Lost {
                error: "WS bridge read failed: "@ + reason@,
            },
            SessionEvent::Closed => SessionMove::Stop,
            SessionEvent::NotAJob { reason } => SessionMove::Reply {
                message: json::json_written(
                    messages::error_json(""@, "invalid job message: "@ + reason@),
                ),
            },
            SessionEvent::Job { job } => match job.key(self.shared_secret()) {
                Ok(key) => SessionMove::RunJob { job, key },
                Err(error) => SessionMove::Reply {
                    message: json::json_written(messages::error_json(job.reported_id(), error)),
                },
            },
            SessionEvent::JobEnded { result } => SessionMove::Reply {
                message: json::json_written(
                    match result {
                        Ok(url) => messages::done_json(self.running()->0, url@),
                        Err(error) => messages::error_json(self.running()->0, error@),
                    },
                ),
            },
        }
    }

    /// The name of the job that runs after a move.
    pub open spec fn running_after(done: SessionMove) -> Option<Seq<char>> {
        match done {
            SessionMove::RunJob { job, .. } => Some(job.reported_id()),
            _ => None,
        }
    }

    /// A session in which no job runs.
    pub fn new(shared_secret: [u8; 32]) -> (r: Self)
        ensures
            r.shared_secret() == shared_secret@,
            r.running() is None,
    {
        Session { shared_secret, running: None }
    }

    /// Whether the event is one that can happen now.
    pub fn expects(&self, event: &SessionEvent) -> (r: bool)
        ensures
            r == self.awaits(*event),
    {
        match event {
            SessionEvent::JobEnded { .. } => self.running.is_some(),
            _ => self.running.is_none(),
        }
    }

    /// Takes an event, and says what to do next.
    pub fn step(&mut self, event: SessionEvent) -> (r: SessionAction)
        requires
            old(self).awaits(event),
        ensures
            r@ == old(self).move_on(event),
            final(self).running() == Self::running_after(old(self).move_on(event)),
            final(self).shared_secret() == old(self).shared_secret(),
    {
        match event {
            SessionEvent::Idle => SessionAction::Read,
            SessionEvent::OtherFrame => SessionAction::Read,
            SessionEvent::ReadFailed { reason } => SessionAction::Lost {
                error: text::cat2("WS bridge read failed: ", reason.as_str()),
            },
            SessionEvent::Closed => SessionAction::Stop,
            SessionEvent::NotAJob { reason } => SessionAction::Reply {
                message: messages::invalid_job_reply(reason.as_str()),
            },
            SessionEvent::Job { job } => {
                let job_id: String = text::text_or(&job.job_id, "");
                match keys::job_key(&self.shared_secret, &job.salt_b64, &job.enc_key_b64) {
                    Ok(key) => {
                        self.running = Some(job_id);
                        SessionAction::RunJob { job, key }
                    },
                    Err(e) => SessionAction::Reply {
                        message: messages::error_reply(job_id.as_str(), e.message().as_str()),
                    },
                }
            },
            SessionEvent::JobEnded { result } => {
                let job_id: String = text::text_or(&self.running, "");
                self.running = None;
                let message: String = match result {
                    Ok(url) => messages::done_reply(job_id.as_str(), url.as_str()),
                    Err(error) => messages::error_reply(job_id.as_str(), error.as_str()),
                };
                SessionAction::Reply { message }
            },
        }
    }
}

/// The move is an answer that reports on the job of this name.
pub open spec fn answers(done: SessionMove, job_id: Seq<char>) -> bool {
    exists|answer: json::Json|
        done == (SessionMove::Reply { message: #[trigger] json::json_written(answer) })
            && names_job(answer, job_id)
}

/// The message is about the job of this name.
pub open spec fn names_job(answer: json::Json, job_id: Seq<char>) -> bool {
    match json::member(answer, "payload"@) {
        Some(payload) => json::member(payload, "job_id"@) == Some(json::Json::Text(job_id)),
        None => false,
    }
}

proof fn lemma_replies_name_their_job(job_id: Seq<char>, text: Seq<char>)
    ensures
        names_job(messages::done_json(job_id, text), job_id),
        names_job(messages::error_json(job_id, text), job_id),
{
    reveal_strlit("job_id");
    reveal_strlit("status");
    reveal_strlit("error");
    reveal_strlit("result_url");
    assert("job_id"@[0] != "status"@[0]);
    assert("job_id"@[0] != "error"@[0]);
    assert("job_id"@[0] != "result_url"@[0]);
}

/// Every text that comes in is answered in the end, or runs a job whose end is
/// answered: a job that gives no key, a text that is no job, and the end of a job
/// each get one answer, under the name that the job came with.
pub proof fn law_every_job_is_answered(session: Session, event: SessionEvent)
    requires
        session.awaits(event),
    ensures
        event is NotAJob ==> answers(session.move_on(event), ""@),
        event matches SessionEvent::Job { job } ==> answers(
            session.move_on(event),
            job.reported_id(),
        ) || (session.move_on(event) is RunJob && Session::running_after(session.move_on(event))
            == Some(job.reported_id())),
        event is JobEnded ==> answers(session.move_on(event), session.running()->0),
{
    match event {
        SessionEvent::NotAJob { reason } => {
            lemma_replies_name_their_job(""@, "invalid job message: "@ + reason@);
        },
        SessionEvent::Job { job } => {
            let key = job.key(session.shared_secret());
            if key is Err {
                lemma_replies_name_their_job(job.reported_id(), key->Err_0);
            }
        },
        SessionEvent::JobEnded { result } => {
            match result {
                Ok(url) => lemma_replies_name_their_job(session.running()->0, url@),
                Err(error) => lemma_replies_name_their_job(session.running()->0, error@),
            }
        },
        _ => {},
    }
}

/// The matchmaker learns nothing of the shared secret from the answers: whatever
/// the secret is, they are the same.
pub proof fn law_answers_hide_the_secret(a: Session, b: Session, event: SessionEvent)
    requires
        a.running() == b.running(),
    ensures
        a.move_on(event) is Reply ==> b.move_on(event) == a.move_on(event),
{
}

// ---------------------------------------------------------------------------
// Connecting again

/// The wait, in seconds, before the first new connection.
pub const FIRST_BACKOFF: u64 = 1;

/// The wait after a wait: two seconds longer, until it is past 30.
pub open spec fn longer(backoff: u64) -> int {
    if backoff < 30 {
        backoff + 2
    } else {
        backoff as int
    }
}

/// The wait after `n` waits.
pub open spec fn backoff_after(n: nat) -> int
    decreases n,
{
    if n == 0 {
        FIRST_BACKOFF as int
    } else {
        longer(backoff_after((n - 1) as nat) as u64)
    }
}

/// The waits grow from one second by two to 31, and stay there.
pub proof fn law_backoff_grows_to_31(n: nat)
    ensures
        backoff_after(n) == (if 1 + 2 * n < 31 {
            1 + 2 * n
        } else {
            31nat
        }),
    decreases n,
{
    if n > 0 {
        law_backoff_grows_to_31((n - 1) as nat);
    }
}

/// What the agent does when a session ended.
#[derive(Debug, Clone, Copy, PartialEq, Eq, Structural)]
pub enum AfterSession {
    /// It stops.
    Finish,
    /// It waits, then connects again.
    Reconnect { wait_secs: u64 },
}

/// What the agent does when a session ended.
pub open spec fn next_after(ended_well: bool, shutdown: bool, backoff: u64) -> AfterSession {
    if ended_well || shutdown {
        AfterSession::Finish
    } else {
        AfterSession::Reconnect { wait_secs: backoff }
    }
}

/// A connection that was lost is made again: a failed read, and nothing else, ends
/// the session with an error, and only the matchmaker's close ends it well. After
/// an error the agent connects again unless it is shut down; after a good end it
/// does not.
pub proof fn law_lost_connections_are_made_again(
    session: Session,
    event: SessionEvent,
    backoff: u64,
)
    ensures
        event is ReadFailed == session.move_on(event) is Lost,
        event is Closed == session.move_on(event) is Stop,
        next_after(false, false, backoff) == (AfterSession::Reconnect { wait_secs: backoff }),
        next_after(true, false, backoff) == AfterSession::Finish,
{
}

/// Settles what follows a session. A session that ended well, or a shutdown, ends
/// the agent; after an error it waits, and the next wait is longer.
pub fn after_session(ended_well: bool, shutdown: bool, backoff: &mut u64) -> (r: AfterSession)
    ensures
        r == next_after(ended_well, shutdown, *old(backoff)),
        *final(backoff) == (if ended_well || shutdown {
            *old(backoff) as int
        } else {
            longer(*old(backoff))
        }),
{
    if ended_well || shutdown {
        return AfterSession::Finish;
    }
    let wait_secs: u64 = *backoff;
    if wait_secs < 30 {
        *backoff = wait_secs + 2;
    }
    AfterSession::Reconnect { wait_secs }
}

} // verus!
