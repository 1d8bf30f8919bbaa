use vstd::prelude::*;
use crate::job::{JobStatus, rank, status_text, not_found_text};
use crate::registry::{advance, reported_status};

verus! {

/// A job just created (the registry gains `id` in state `queued`) is
/// reported as `queued` by a status query made right after.
pub proof fn lemma_created_job_reports_queued(m: Map<Seq<char>, JobStatus>, id: Seq<char>)
    ensures
        reported_status(m.insert(id, JobStatus::Queued), id) == status_text(JobStatus::Queued),
{
}

/// A status query on an identifier that names no job reports `not_found`.
pub proof fn lemma_unknown_id_reports_not_found(m: Map<Seq<char>, JobStatus>, id: Seq<char>)
    requires
        !m.contains_key(id),
    ensures
        reported_status(m, id) == not_found_text(),
{
}

/// Neither worker step ever moves a job's status backwards, whatever state
/// it is in, so also when the same identifier is delivered again after the
/// job has reached `processing` or `done`.
pub proof fn lemma_worker_steps_never_regress(m: Map<Seq<char>, JobStatus>, id: Seq<char>)
    requires
        m.contains_key(id),
    ensures
        ({
            let started = advance(m, id, JobStatus::Queued, JobStatus::Processing);
            let finished = advance(m, id, JobStatus::Processing, JobStatus::Done);
            &&& started.contains_key(id) && finished.contains_key(id)
            &&& rank(m[id]) <= rank(started[id])
            &&& rank(m[id]) <= rank(finished[id])
        }),
        m[id] == JobStatus::Done ==> advance(m, id, JobStatus::Queued, JobStatus::Processing)
            == m,
{
}

/// A job delivered to the worker goes `queued`, `processing`, `done`: the
/// first step moves it to `processing`, the second to `done`, and a
/// redelivery of the identifier at any point afterwards changes nothing.
pub proof fn lemma_job_runs_forward(m: Map<Seq<char>, JobStatus>, id: Seq<char>)
    requires
        m.contains_key(id),
        m[id] == JobStatus::Queued,
    ensures
        ({
            let started = advance(m, id, JobStatus::Queued, JobStatus::Processing);
            let finished = advance(started, id, JobStatus::Processing, JobStatus::Done);
            &&& started[id] == JobStatus::Processing
            &&& finished[id] == JobStatus::Done
            &&& advance(started, id, JobStatus::Queued, JobStatus::Processing) == started
            &&& advance(finished, id, JobStatus::Queued, JobStatus::Processing) == finished
            &&& advance(finished, id, JobStatus::Processing, JobStatus::Done) == finished
        }),
{
}

/// Steps on other jobs, and the creation of another job, leave a job's
/// status as it was.
pub proof fn lemma_other_jobs_leave_status(
    m: Map<Seq<char>, JobStatus>,
    id: Seq<char>,
    other: Seq<char>,
    from: JobStatus,
    to: JobStatus,
)
    requires
        m.contains_key(id),
        other != id,
    ensures
        advance(m, other, from, to).contains_key(id),
        advance(m, other, from, to)[id] == m[id],
        m.insert(other, JobStatus::Queued).contains_key(id),
        m.insert(other, JobStatus::Queued)[id] == m[id],
{
}

/// For a job that is `queued` when the worker receives it, both steps emit
/// their event, `processing` first and then `done`: the first step finds it
/// `queued`, the second finds it `processing`.
pub proof fn lemma_job_events_both_emitted(m: Map<Seq<char>, JobStatus>, id: Seq<char>)
    requires
        m.contains_key(id),
        m[id] == JobStatus::Queued,
    ensures
        ({
            let started = advance(m, id, JobStatus::Queued, JobStatus::Processing);
            started.contains_key(id) && started[id] == JobStatus::Processing
        }),
{
}

} // verus!
