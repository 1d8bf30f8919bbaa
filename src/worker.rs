use vstd::prelude::*;
use crate::job::JobStatus;
use crate::registry::{JobRegistry, advance};

verus! {

/// Event published when a job starts processing.
pub open spec fn processing_event(id: Seq<char>) -> Seq<char> {
    "Job "@ + id + " is processing"@
}

/// Event published when a job is done.
pub open spec fn done_event(id: Seq<char>) -> Seq<char> {
    "Job "@ + id + " is done"@
}

/// Reply to a client whose job was created.
pub open spec fn created_reply(id: Seq<char>) -> Seq<char> {
    "Job created with id "@ + id
}

/// Text of the event published when the job `id` starts processing.
pub fn processing_message(id: &String) -> (r: String)
    ensures
        r@ == processing_event(id@),
{
    let head = String::from_str("Job ");
    let with_id = head.concat(id.as_str());
    with_id.concat(" is processing")
}

/// Text of the event published when the job `id` is done.
pub fn done_message(id: &String) -> (r: String)
    ensures
        r@ == done_event(id@),
{
    let head = String::from_str("Job ");
    let with_id = head.concat(id.as_str());
    with_id.concat(" is done")
}

/// Reply to a client whose job `id` was created.
pub fn created_message(id: &String) -> (r: String)
    ensures
        r@ == created_reply(id@),
{
    let head = String::from_str("Job created with id ");
    head.concat(id.as_str())
}

/// Relies on uuid::Uuid::new_v4 for a random version-4 identifier, written
/// out by its `Display` impl in the 36-character hyphenated form.
#[verifier::external_body]
fn fresh_job_id() -> (r: String)
    ensures
        r@.len() == 36,
{
    uuid::Uuid::new_v4().to_string()
}

impl JobRegistry {
    /// Creates a job in state `queued` under a fresh random identifier and
    /// returns the identifier. An identifier that already names a job is
    /// never reused: on such a draw nothing is inserted and `None` comes back,
    /// which can happen only where some job has a 36-character identifier.
    pub fn create(&mut self) -> (r: Option<String>)
        requires
            old(self).wf(),
        ensures
            final(self).wf(),
            match r {
                Some(id) => {
                    &&& id@.len() == 36
                    &&& !old(self)@.contains_key(id@)
                    &&& final(self)@ == old(self)@.insert(id@, JobStatus::Queued)
                },
                None => final(self)@ == old(self)@,
            },
            r is None ==> exists|k: Seq<char>| k.len() == 36 && #[trigger] old(self)@.contains_key(k),
    {
        let id = fresh_job_id();
        if self.insert_queued(id.clone()) {
            Some(id)
        } else {
            None
        }
    }

    /// Moves the job `id` from `from` to `to` where it is in state `from`;
    /// returns whether it moved.
    fn step(&mut self, id: &String, from: JobStatus, to: JobStatus) -> (r: bool)
        requires
            old(self).wf(),
        ensures
            final(self).wf(),
            final(self)@ == advance(old(self)@, id@, from, to),
            r == (old(self)@.contains_key(id@) && old(self)@[id@] == from),
    {
        match self.lookup(id) {
            Some(s) => {
                if s == from {
                    self.transition(id, to)
                } else {
                    false
                }
            },
            None => false,
        }
    }

    /// Worker step on receiving `id`: moves a `queued` job to `processing`
    /// and returns the event to publish. A message naming no job, or a job
    /// already `processing` or `done` (a redelivered identifier), changes
    /// nothing and publishes nothing.
    pub fn begin_processing(&mut self, id: &String) -> (r: Option<String>)
        requires
            old(self).wf(),
        ensures
            final(self).wf(),
            final(self)@ == advance(old(self)@, id@, JobStatus::Queued, JobStatus::Processing),
            r.is_some() == (old(self)@.contains_key(id@) && old(self)@[id@] == JobStatus::Queued),
            r matches Some(e) ==> e@ == processing_event(id@),
    {
        if self.step(id, JobStatus::Queued, JobStatus::Processing) {
            Some(processing_message(id))
        } else {
            None
        }
    }

    /// Worker step once the work on `id` is finished: moves a `processing`
    /// job to `done` and returns the event to publish. A job in any other
    /// state, or no job, is left as it is and nothing is published.
    pub fn complete(&mut self, id: &String) -> (r: Option<String>)
        requires
            old(self).wf(),
        ensures
            final(self).wf(),
            final(self)@ == advance(old(self)@, id@, JobStatus::Processing, JobStatus::Done),
            r.is_some() == (old(self)@.contains_key(id@) && old(self)@[id@]
                == JobStatus::Processing),
            r matches Some(e) ==> e@ == done_event(id@),
    {
        if self.step(id, JobStatus::Processing, JobStatus::Done) {
            Some(done_message(id))
        } else {
            None
        }
    }
}

} // verus!
