use vstd::prelude::*;
use crate::job::{Job, JobStatus, JobStatusResponse, status_text, not_found_text};

verus! {

/// The registry after `id` is set to `s`, where a job with that identifier
/// exists; unchanged otherwise.
pub open spec fn set_status(m: Map<Seq<char>, JobStatus>, id: Seq<char>, s: JobStatus) -> Map<
    Seq<char>,
    JobStatus,
> {
    if m.contains_key(id) {
        m.insert(id, s)
    } else {
        m
    }
}

/// The registry after a forward step of `id` from `from` to `to`: the job
/// moves only where it exists and is in state `from`; unchanged otherwise.
pub open spec fn advance(
    m: Map<Seq<char>, JobStatus>,
    id: Seq<char>,
    from: JobStatus,
    to: JobStatus,
) -> Map<Seq<char>, JobStatus> {
    if m.contains_key(id) && m[id] == from {
        m.insert(id, to)
    } else {
        m
    }
}

/// The answer to a status query on a registry holding `m`.
pub open spec fn reported_status(m: Map<Seq<char>, JobStatus>, id: Seq<char>) -> Seq<char> {
    if m.contains_key(id) {
        status_text(m[id])
    } else {
        not_found_text()
    }
}

/// The authoritative store of jobs: each identifier names at most one job,
/// and a job, once inserted, is never removed.
pub struct JobRegistry {
    jobs: Vec<Job>,
    model: Ghost<Map<Seq<char>, JobStatus>>,
}

impl View for JobRegistry {
    type V = Map<Seq<char>, JobStatus>;

    closed spec fn view(&self) -> Map<Seq<char>, JobStatus> {
        self.model@
    }
}

impl JobRegistry {
    /// The stored jobs agree with the model, with no identifier stored twice.
    pub closed spec fn wf(&self) -> bool {
        &&& forall|i: int, j: int|
            0 <= i < self.jobs.len() && 0 <= j < self.jobs.len() && i != j
                ==> #[trigger] self.jobs@[i].id@ != #[trigger] self.jobs@[j].id@
        &&& forall|i: int|
            0 <= i < self.jobs.len() ==> {
                &&& self.model@.contains_key(#[trigger] self.jobs@[i].id@)
                &&& self.model@[self.jobs@[i].id@] == self.jobs@[i].status
            }
        &&& forall|k: Seq<char>|
            #[trigger] self.model@.contains_key(k) ==> exists|i: int|
                0 <= i < self.jobs.len() && self.jobs@[i].id@ == k
    }

    /// An empty registry.
    pub fn new() -> (r: JobRegistry)
        ensures
            r.wf(),
            r@ == Map::<Seq<char>, JobStatus>::empty(),
    {
        JobRegistry { jobs: Vec::new(), model: Ghost(Map::empty()) }
    }

    /// Position of the job with identifier `id`, if there is one.
    fn find(&self, id: &String) -> (r: Option<usize>)
        requires
            self.wf(),
        ensures
            match r {
                Some(i) => i < self.jobs.len() && self.jobs@[i as int].id@ == id@
                    && self@.contains_key(id@),
                None => !self@.contains_key(id@),
            },
    {
        let mut i: usize = 0;
        while i < self.jobs.len()
            invariant
                self.wf(),
                i <= self.jobs.len(),
                forall|j: int| 0 <= j < i ==> self.jobs@[j].id@ != id@,
            decreases self.jobs.len() - i,
        {
            if self.jobs[i].id == *id {
                return Some(i);
            }
            i = i + 1;
        }
        None
    }

    /// Current status of the job with identifier `id`, if there is one.
    pub fn lookup(&self, id: &String) -> (r: Option<JobStatus>)
        requires
            self.wf(),
        ensures
            r == (if self@.contains_key(id@) {
                Some(self@[id@])
            } else {
                None::<JobStatus>
            }),
    {
        match self.find(id) {
            Some(i) => Some(self.jobs[i].status),
            None => None,
        }
    }

    /// Inserts a job in state `queued` under `id`, unless a job already has
    /// that identifier; returns whether it inserted.
    pub fn insert_queued(&mut self, id: String) -> (r: bool)
        requires
            old(self).wf(),
        ensures
            final(self).wf(),
            r == !old(self)@.contains_key(id@),
            r ==> final(self)@ == old(self)@.insert(id@, JobStatus::Queued),
            !r ==> final(self)@ == old(self)@,
    {
        match self.find(&id) {
            Some(_) => false,
            None => {
                let ghost key = id@;
                let ghost before = self.jobs@;
                self.jobs.push(Job { id, status: JobStatus::Queued });
                self.model = Ghost(self.model@.insert(key, JobStatus::Queued));
                assert forall|k: Seq<char>| #[trigger] self.model@.contains_key(k) implies exists|
                    i: int,
                | 0 <= i < self.jobs.len() && self.jobs@[i].id@ == k by {
                    if k == key {
                        assert(self.jobs@[before.len() as int].id@ == k);
                    } else {
                        let i = choose|i: int| 0 <= i < before.len() && before[i].id@ == k;
                        assert(self.jobs@[i].id@ == k);
                    }
                }
                true
            },
        }
    }

    /// Overwrites the status of the job with identifier `id`; returns
    /// whether such a job exists (where none does, nothing changes).
    pub fn transition(&mut self, id: &String, status: JobStatus) -> (r: bool)
        requires
            old(self).wf(),
        ensures
            final(self).wf(),
            r == old(self)@.contains_key(id@),
            final(self)@ == set_status(old(self)@, id@, status),
    {
        match self.find(id) {
            Some(i) => {
                let ghost before = self.jobs@;
                let job = Job { id: self.jobs[i].id.clone(), status };
                self.jobs.set(i, job);
                self.model = Ghost(self.model@.insert(id@, status));
                assert forall|k: Seq<char>| #[trigger] self.model@.contains_key(k) implies exists|
                    j: int,
                | 0 <= j < self.jobs.len() && self.jobs@[j].id@ == k by {
                    let j = choose|j: int| 0 <= j < before.len() && before[j].id@ == k;
                    assert(self.jobs@[j].id@ == k);
                }
                true
            },
            None => false,
        }
    }

    /// Snapshot of a job's status for a query: the identifier asked for, and
    /// the status name or `not_found`.
    pub fn get(&self, id: &String) -> (r: JobStatusResponse)
        requires
            self.wf(),
        ensures
            r.id@ == id@,
            r.status@ == reported_status(self@, id@),
    {
        match self.lookup(id) {
            Some(s) => JobStatusResponse { id: id.clone(), status: s.name() },
            None => JobStatusResponse { id: id.clone(), status: String::from_str("not_found") },
        }
    }
}

} // verus!
