//! Storage: the keeper of the job records.

use crate::error::Error;
use crate::job::Job;
use crate::job::JobView;
use crate::text_map::TextMap;
use crate::text_map::assoc;
use crate::text_map::lemma_assoc_at;
use crate::text_map::lemma_assoc_push;
use crate::text_map::lemma_assoc_update;
use vstd::prelude::*;

verus! {

/// The records of a list of jobs, in order.
pub open spec fn views_of(list: Seq<Job>) -> Seq<JobView> {
    list.map_values(|job: Job| job@)
}

/// The identifiers of a list of records, in order.
pub open spec fn ids_of(list: Seq<JobView>) -> Seq<Seq<char>> {
    list.map_values(|record: JobView| record.id)
}

/// `list` holds every record of `jobs` once, and nothing else: its
/// identifiers are distinct, and keyed by them it is `jobs` again.
pub open spec fn is_snapshot(list: Seq<JobView>, jobs: Map<Seq<char>, JobView>) -> bool {
    ids_of(list).no_duplicates() && assoc(ids_of(list), list) == jobs
}

/// What saving `job` may return, and the records that are held afterwards:
/// on success the record stands under its identifier, in place of any
/// record that stood there; a failure is a `StorageError` and changes
/// nothing.
pub open spec fn is_save_outcome(
    before: Map<Seq<char>, JobView>,
    job: JobView,
    outcome: Result<(), Error>,
    after: Map<Seq<char>, JobView>,
) -> bool {
    match outcome {
        Ok(()) => after == before.insert(job.id, job),
        Err(e) => e is StorageError && after == before,
    }
}

/// What loading `id` from `jobs` may return: the record that stands under
/// `id`; `JobNotFound` with `id` where none does; or a `StorageError`.
pub open spec fn is_load_outcome(
    jobs: Map<Seq<char>, JobView>,
    id: Seq<char>,
    outcome: Result<Job, Error>,
) -> bool {
    match outcome {
        Ok(job) => jobs.contains_key(id) && job@ == jobs[id] && job@.id == id,
        Err(Error::JobNotFound(missing)) => !jobs.contains_key(id) && missing@ == id,
        Err(e) => e is StorageError,
    }
}

/// What listing `jobs` may return: a snapshot of all records, or a
/// `StorageError`.
pub open spec fn is_list_outcome(
    jobs: Map<Seq<char>, JobView>,
    outcome: Result<Vec<Job>, Error>,
) -> bool {
    match outcome {
        Ok(list) => is_snapshot(views_of(list@), jobs),
        Err(e) => e is StorageError,
    }
}

/// The keeper of the job records. Every operation works on whole records.
///
/// A backend may fail with a `StorageError` at any call, unless it is
/// `infallible`; what it then holds is unchanged.
pub trait Storage: Send + Sync {
    /// The records held, each under its identifier.
    spec fn jobs(&self) -> Map<Seq<char>, JobView>;

    /// Whether this backend never reports a `StorageError`.
    spec fn infallible(&self) -> bool;

    /// Stores `job` under its identifier, in place of any record there.
    fn save_job(&mut self, job: Job) -> (outcome: Result<(), Error>)
        ensures
            is_save_outcome(old(self).jobs(), job@, outcome, final(self).jobs()),
            final(self).infallible() == old(self).infallible(),
            old(self).infallible() ==> outcome is Ok,
    ;

    /// A copy of the record that stands under `id`.
    fn load_job(&self, id: &str) -> (outcome: Result<Job, Error>)
        ensures
            is_load_outcome(self.jobs(), id@, outcome),
            self.infallible() ==> !(outcome matches Err(Error::StorageError(_))),
    ;

    /// Copies of all records, as they stand at the time of the call.
    fn list_jobs(&self) -> (outcome: Result<Vec<Job>, Error>)
        ensures
            is_list_outcome(self.jobs(), outcome),
            self.infallible() ==> outcome is Ok,
    ;
}

/// A storage that keeps its records in memory and never fails.
pub struct InMemoryStorage {
    jobs: TextMap<Job>,
}

impl InMemoryStorage {
    #[verifier::type_invariant]
    spec fn keyed_by_id(&self) -> bool {
        forall|i: int|
            0 <= i < self.jobs.keys().len() ==> self.jobs.keys()[i]
                == (#[trigger] self.jobs.values()[i])@.id
    }

    /// An empty storage.
    pub fn new() -> (storage: Self)
        ensures
            storage.jobs() == Map::<Seq<char>, JobView>::empty(),
            storage.infallible(),
    {
        let storage = InMemoryStorage { jobs: TextMap::new() };
        assert(storage.jobs() =~= Map::<Seq<char>, JobView>::empty());
        storage
    }
}

impl Storage for InMemoryStorage {
    closed spec fn jobs(&self) -> Map<Seq<char>, JobView> {
        assoc(self.jobs.keys(), views_of(self.jobs.values()))
    }

    closed spec fn infallible(&self) -> bool {
        true
    }

    fn save_job(&mut self, job: Job) -> (outcome: Result<(), Error>) {
        proof {
            use_type_invariant(&*self);
        }
        proof {
            use_type_invariant(&self.jobs);
            self.jobs.lemma_same_length();
        }
        let key = job.id().clone();
        let ghost keys = self.jobs.keys();
        let ghost records = views_of(self.jobs.values());
        // The records are taken out while they change, so that `self` is
        // never seen half-updated.
        let mut jobs: TextMap<Job> = TextMap::new();
        core::mem::swap(&mut self.jobs, &mut jobs);
        jobs.insert(key, job);
        proof {
            if keys.contains(key@) {
                let i = keys.index_of(key@);
                lemma_assoc_update(keys, records, i, job@);
                assert(views_of(jobs.values()) =~= records.update(i, job@));
            } else {
                lemma_assoc_push(keys, records, key@, job@);
                assert(views_of(jobs.values()) =~= records.push(job@));
            }
        }
        core::mem::swap(&mut self.jobs, &mut jobs);
        Ok(())
    }

    fn load_job(&self, id: &str) -> (outcome: Result<Job, Error>) {
        proof {
            use_type_invariant(self);
        }
        proof {
            use_type_invariant(&self.jobs);
            self.jobs.lemma_same_length();
        }
        match self.jobs.position(id) {
            Some(i) => {
                proof {
                    lemma_assoc_at(self.jobs.keys(), views_of(self.jobs.values()), i as int);
                }
                Ok(self.jobs.value_at(i).clone())
            },
            None => Err(Error::JobNotFound(String::from_str(id))),
        }
    }

    fn list_jobs(&self) -> (outcome: Result<Vec<Job>, Error>) {
        proof {
            use_type_invariant(self);
        }
        let n: usize = self.jobs.len();
        let mut list: Vec<Job> = Vec::new();
        let mut i: usize = 0;
        while i < n
            invariant
                i <= n,
                n == self.jobs.keys().len(),
                n == self.jobs.values().len(),
                views_of(list@) == views_of(self.jobs.values()).take(i as int),
            decreases n - i,
        {
            let job = self.jobs.value_at(i).clone();
            proof {
                let before = views_of(list@);
                let after = views_of(list@.push(job));
                let wanted = views_of(self.jobs.values()).take(i + 1);
                assert(before.len() == i);
                assert forall|j: int| 0 <= j < after.len() implies after[j] == wanted[j] by {
                    if j < i {
                        assert(after[j] == before[j]);
                        assert(before[j] == views_of(self.jobs.values()).take(i as int)[j]);
                    }
                }
                assert(after =~= wanted);
            }
            list.push(job);
            i += 1;
        }
        proof {
            let records = views_of(self.jobs.values());
            assert(records.take(n as int) =~= records);
            assert(ids_of(records) =~= self.jobs.keys());
        }
        Ok(list)
    }
}

} // verus!
