//! The logical state of a durable typed job queue.
//!
//! One store holds the rows of one job class. The persistence layer mirrors
//! these rows in a relational table; every transition of a row — claim,
//! completion, failure, recovery — is decided here, so the at-least-once
//! delivery discipline is a property of this model.

use vstd::prelude::*;

use crate::error::Error;

verus! {

/// The lifecycle state of a stored job.
#[derive(Debug, Clone, Copy, PartialEq, Eq, Structural)]
pub enum JobStatus {
    /// Waiting to be claimed.
    Pending,
    /// Claimed by a worker, not yet finished.
    Running,
    /// Finished successfully.
    Done,
    /// Finished with an error.
    Failed,
}

/// One stored job.
#[derive(Debug, Clone)]
pub struct JobRow<T> {
    /// The row's identifier, unique within its store.
    pub id: u64,
    /// The job payload.
    pub job: T,
    /// Where the job stands in its lifecycle.
    pub status: JobStatus,
    /// When the job completed, if it did.
    pub done_at: Option<u64>,
    /// The last error reported for the job, if any.
    pub last_error: Option<String>,
}

/// A row as it returns to the pending state on recovery.
pub open spec fn spec_repending<T>(row: JobRow<T>) -> JobRow<T> {
    JobRow {
        id: row.id,
        job: row.job,
        status: JobStatus::Pending,
        done_at: row.done_at,
        last_error: row.last_error,
    }
}

/// What a store's rows become when interrupted work is reclaimed: every
/// claimed-but-unfinished row returns to pending, everything else is kept.
pub open spec fn spec_recovered<T>(rows: Seq<JobRow<T>>) -> Seq<JobRow<T>> {
    rows.map_values(
        |row: JobRow<T>|
            if row.status is Running {
                spec_repending(row)
            } else {
                row
            },
    )
}

/// The queue of one job class.
#[derive(Debug)]
pub struct JobStore<T> {
    /// The stored rows, in insertion order.
    pub rows: Vec<JobRow<T>>,
    /// The identifier the next pushed row receives.
    pub next_id: u64,
}

impl<T> JobStore<T> {
    /// Well-formed: identifiers are unique, below the next one to hand out,
    /// and a completion time is recorded exactly for completed rows.
    pub open spec fn wf(&self) -> bool {
        &&& forall|i: int, j: int|
            0 <= i < j < self.rows@.len() ==> self.rows@[i].id != self.rows@[j].id
        &&& forall|i: int| 0 <= i < self.rows@.len() ==> self.rows@[i].id < self.next_id
        &&& forall|i: int|
            0 <= i < self.rows@.len() ==> ((#[trigger] self.rows@[i].status) is Done <==> self.rows@[i].done_at is Some)
    }

    /// An empty store.
    pub fn new() -> (r: JobStore<T>)
        ensures
            r.wf(),
            r.rows@.len() == 0,
    {
        JobStore { rows: Vec::new(), next_id: 0 }
    }

    /// Store a job as pending and hand back its fresh identifier.
    pub fn push(&mut self, job: T) -> (id: u64)
        requires
            old(self).wf(),
            old(self).next_id < u64::MAX,
        ensures
            final (self).wf(),
            id == old(self).next_id,
            final (self).rows@ == old(self).rows@.push(
                JobRow {
                    id,
                    job,
                    status: JobStatus::Pending,
                    done_at: None,
                    last_error: None,
                },
            ),
            final (self).next_id == old(self).next_id + 1,
    {
        let id = self.next_id;
        self.rows.push(
            JobRow { id, job, status: JobStatus::Pending, done_at: None, last_error: None },
        );
        self.next_id = id + 1;
        id
    }

    /// The index of the row with an identifier, if it exists.
    fn find_row(&self, id: u64) -> (r: Option<usize>)
        ensures
            match r {
                Some(i) => i < self.rows@.len() && self.rows@[i as int].id == id,
                None => forall|j: int| 0 <= j < self.rows@.len() ==> self.rows@[j].id != id,
            },
    {
        let mut i: usize = 0;
        while i < self.rows.len()
            invariant
                i <= self.rows@.len(),
                forall|j: int| 0 <= j < i ==> self.rows@[j].id != id,
            decreases self.rows@.len() - i,
        {
            if self.rows[i].id == id {
                return Some(i);
            }
            i += 1;
        }
        None
    }

    /// Atomically claim the first pending row: it becomes running and its
    /// identifier is returned. Returns nothing exactly when no row is
    /// pending.
    #[verifier::rlimit(50)]
    pub fn poll(&mut self) -> (r: Option<u64>)
        requires
            old(self).wf(),
        ensures
            final (self).wf(),
            final (self).next_id == old(self).next_id,
            match r {
                Some(id) => exists|k: int|
                    {
                        &&& 0 <= k < old(self).rows@.len()
                        &&& (#[trigger] old(self).rows@[k]).status is Pending
                        &&& forall|j: int| 0 <= j < k ==> !((#[trigger] old(self).rows@[j].status) is Pending)
                        &&& old(self).rows@[k].id == id
                        &&& final (self).rows@ == old(self).rows@.update(
                            k,
                            JobRow {
                                id: old(self).rows@[k].id,
                                job: old(self).rows@[k].job,
                                status: JobStatus::Running,
                                done_at: old(self).rows@[k].done_at,
                                last_error: old(self).rows@[k].last_error,
                            },
                        )
                    },
                None => {
                    &&& *final (self) == *old(self)
                    &&& forall|j: int|
                        0 <= j < old(self).rows@.len() ==> !((#[trigger] old(self).rows@[j].status) is Pending)
                },
            },
    {
        let mut i: usize = 0;
        while i < self.rows.len()
            invariant
                old(self).wf(),
                *old(self) == *self,
                i <= self.rows@.len(),
                forall|j: int| 0 <= j < i ==> !((#[trigger] self.rows@[j].status) is Pending),
            decreases self.rows@.len() - i,
        {
            if matches!(self.rows[i].status, JobStatus::Pending) {
                let id = self.rows[i].id;
                let ghost pre = self.rows@;
                self.rows[i].status = JobStatus::Running;
                proof {
                    assert(self.rows@ =~= pre.update(
                        i as int,
                        JobRow {
                            id: pre[i as int].id,
                            job: pre[i as int].job,
                            status: JobStatus::Running,
                            done_at: pre[i as int].done_at,
                            last_error: pre[i as int].last_error,
                        },
                    ));
                }
                return Some(id);
            }
            i += 1;
        }
        None
    }

    /// Mark a row as completed at a given time. Fails exactly when no row
    /// carries the identifier.
    pub fn complete(&mut self, id: u64, now: u64) -> (r: Result<(), Error>)
        requires
            old(self).wf(),
        ensures
            final (self).wf(),
            final (self).next_id == old(self).next_id,
            r is Ok <==> exists|k: int|
                0 <= k < old(self).rows@.len() && (#[trigger] old(self).rows@[k]).id == id,
            r is Err ==> r == Result::<(), Error>::Err(Error::JobNotFound) && *final (self) == *old(
                self,
            ),
            r is Ok ==> exists|k: int|
                {
                    &&& 0 <= k < old(self).rows@.len()
                    &&& (#[trigger] old(self).rows@[k]).id == id
                    &&& final (self).rows@ == old(self).rows@.update(
                        k,
                        JobRow {
                            id,
                            job: old(self).rows@[k].job,
                            status: JobStatus::Done,
                            done_at: Some(now),
                            last_error: old(self).rows@[k].last_error,
                        },
                    )
                },
    {
        match self.find_row(id) {
            None => Err(Error::JobNotFound),
            Some(i) => {
                let ghost pre = self.rows@;
                self.rows[i].status = JobStatus::Done;
                self.rows[i].done_at = Some(now);
                proof {
                    assert(self.rows@ =~= pre.update(
                        i as int,
                        JobRow {
                            id,
                            job: pre[i as int].job,
                            status: JobStatus::Done,
                            done_at: Some(now),
                            last_error: pre[i as int].last_error,
                        },
                    ));
                }
                Ok(())
            },
        }
    }

    /// Mark a row as failed with an error text. Fails exactly when no row
    /// carries the identifier.
    pub fn fail(&mut self, id: u64, error: String) -> (r: Result<(), Error>)
        requires
            old(self).wf(),
        ensures
            final (self).wf(),
            final (self).next_id == old(self).next_id,
            r is Ok <==> exists|k: int|
                0 <= k < old(self).rows@.len() && (#[trigger] old(self).rows@[k]).id == id,
            r is Err ==> r == Result::<(), Error>::Err(Error::JobNotFound) && *final (self) == *old(
                self,
            ),
            r is Ok ==> exists|k: int|
                {
                    &&& 0 <= k < old(self).rows@.len()
                    &&& (#[trigger] old(self).rows@[k]).id == id
                    &&& final (self).rows@ == old(self).rows@.update(
                        k,
                        JobRow {
                            id,
                            job: old(self).rows@[k].job,
                            status: JobStatus::Failed,
                            done_at: None,
                            last_error: Some(error),
                        },
                    )
                },
    {
        match self.find_row(id) {
            None => Err(Error::JobNotFound),
            Some(i) => {
                let ghost pre = self.rows@;
                let ghost e = error;
                self.rows[i].status = JobStatus::Failed;
                self.rows[i].done_at = None;
                self.rows[i].last_error = Some(error);
                proof {
                    assert(self.rows@ =~= pre.update(
                        i as int,
                        JobRow {
                            id,
                            job: pre[i as int].job,
                            status: JobStatus::Failed,
                            done_at: None,
                            last_error: Some(e),
                        },
                    ));
                }
                Ok(())
            },
        }
    }

    /// Reclaim interrupted work at startup: every running row returns to
    /// pending, everything else is kept as it is.
    pub fn recover(&mut self)
        requires
            old(self).wf(),
        ensures
            final (self).wf(),
            final (self).next_id == old(self).next_id,
            final (self).rows@ == spec_recovered(old(self).rows@),
    {
        let ghost orig = self.rows@;
        let mut i: usize = 0;
        while i < self.rows.len()
            invariant
                i <= self.rows@.len(),
                self.rows@.len() == orig.len(),
                self.next_id == old(self).next_id,
                orig == old(self).rows@,
                forall|j: int| i <= j < orig.len() ==> self.rows@[j] == orig[j],
                forall|j: int|
                    0 <= j < i ==> self.rows@[j] == (if (#[trigger] orig[j].status) is Running {
                        spec_repending(orig[j])
                    } else {
                        orig[j]
                    }),
            decreases self.rows@.len() - i,
        {
            if matches!(self.rows[i].status, JobStatus::Running) {
                self.rows[i].status = JobStatus::Pending;
            }
            i += 1;
        }
        proof {
            assert(self.rows@ =~= spec_recovered(orig));
        }
    }

    /// Borrow the payload of the row with an identifier.
    pub fn job_of(&self, id: u64) -> (r: Option<&T>)
        ensures
            match r {
                Some(job) => exists|k: int|
                    0 <= k < self.rows@.len() && (#[trigger] self.rows@[k]).id == id && *job
                        == self.rows@[k].job,
                None => forall|j: int| 0 <= j < self.rows@.len() ==> self.rows@[j].id != id,
            },
    {
        match self.find_row(id) {
            Some(i) => Some(&self.rows[i].job),
            None => None,
        }
    }
}

/// Law: after a crash and recovery, no row is still claimed, every job that
/// was not finished is pending again — eligible for redelivery — and every
/// finished row is untouched.
pub proof fn lemma_at_least_once_redelivery<T>(rows: Seq<JobRow<T>>)
    ensures
        spec_recovered(rows).len() == rows.len(),
        forall|i: int|
            0 <= i < rows.len() ==> !((#[trigger] spec_recovered(rows)[i].status) is Running),
        forall|i: int|
            0 <= i < rows.len() && ((#[trigger] rows[i].status) is Pending || rows[i].status
                is Running) ==> spec_recovered(rows)[i].status is Pending && spec_recovered(
                rows,
            )[i].job == rows[i].job && spec_recovered(rows)[i].id == rows[i].id,
        forall|i: int|
            0 <= i < rows.len() && !((#[trigger] rows[i].status) is Running) ==> spec_recovered(
                rows,
            )[i] == rows[i],
{
}

} // verus!
