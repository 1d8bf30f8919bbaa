use vstd::prelude::*;

verus! {

/// Lifecycle state of a job, ordered `Queued < Processing < Done`.
#[derive(Clone, Copy, Debug, PartialEq, Eq, Structural)]
pub enum JobStatus {
    Queued,
    Processing,
    Done,
}

/// Position of a status in the lifecycle order.
pub open spec fn rank(s: JobStatus) -> nat {
    match s {
        JobStatus::Queued => 0,
        JobStatus::Processing => 1,
        JobStatus::Done => 2,
    }
}

/// Wire name of a status.
pub open spec fn status_text(s: JobStatus) -> Seq<char> {
    match s {
        JobStatus::Queued => "queued"@,
        JobStatus::Processing => "processing"@,
        JobStatus::Done => "done"@,
    }
}

/// Wire name reported for an identifier that names no job.
pub open spec fn not_found_text() -> Seq<char> {
    "not_found"@
}

impl JobStatus {
    /// The wire name of this status.
    pub fn name(&self) -> (r: String)
        ensures
            r@ == status_text(*self),
    {
        match self {
            JobStatus::Queued => String::from_str("queued"),
            JobStatus::Processing => String::from_str("processing"),
            JobStatus::Done => String::from_str("done"),
        }
    }
}

/// A job: its identifier and its current status.
#[derive(Clone, Debug)]
pub struct Job {
    pub id: String,
    pub status: JobStatus,
}

/// What a status query answers: the identifier asked for and a status name,
/// `not_found` where no job has that identifier.
#[derive(Clone, Debug)]
pub struct JobStatusResponse {
    pub id: String,
    pub status: String,
}

} // verus!
