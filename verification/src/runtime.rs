//! The runtime: submission and execution requests over one storage.

use crate::error::Error;
use crate::job::Job;
use crate::job::JobId;
use crate::job::JobState;
use crate::job::JobView;
use crate::state_machine::StateMachine;
use crate::storage::InMemoryStorage;
use crate::storage::Storage;
use crate::storage::is_load_outcome;
use crate::time::Timestamp;
use crate::time::read_clock;
use vstd::prelude::*;

verus! {

/// The text of the failure that `run_job` reports for a job that is not
/// pending.
pub open spec fn not_pending_text() -> Seq<char> {
    "Job must be pending to run"@
}

/// Every record stands under its own identifier and was not updated before
/// it was created.
pub open spec fn are_sound(jobs: Map<Seq<char>, JobView>) -> bool {
    forall|id: Seq<char>| #[trigger]
        jobs.contains_key(id) ==> jobs[id].id == id && jobs[id].well_timed()
}

/// What submitting `job` may return, and the records that are held
/// afterwards: on success the job's identifier comes back and the record
/// stands under it; a failure is a `StorageError` and changes nothing.
pub open spec fn is_submit_outcome(
    before: Map<Seq<char>, JobView>,
    job: JobView,
    outcome: Result<JobId, Error>,
    after: Map<Seq<char>, JobView>,
) -> bool {
    match outcome {
        Ok(id) => id@ == job.id && after == before.insert(job.id, job),
        Err(e) => e is StorageError && after == before,
    }
}

/// What setting the state of the job `id` to `state` at `now` may return,
/// and the records that are held afterwards: on success the record under
/// `id` has the new state and a refreshed update time; `JobNotFound` with
/// `id` where no record stands under it; or a `StorageError`. A failure
/// changes nothing.
pub open spec fn is_update_outcome(
    before: Map<Seq<char>, JobView>,
    id: Seq<char>,
    state: JobState,
    now: Timestamp,
    outcome: Result<(), Error>,
    after: Map<Seq<char>, JobView>,
) -> bool {
    match outcome {
        Ok(()) => before.contains_key(id) && after == before.insert(
            id,
            before[id].with_state(state, now),
        ),
        Err(Error::JobNotFound(missing)) => !before.contains_key(id) && missing@ == id && after
            == before,
        Err(e) => e is StorageError && after == before,
    }
}

/// What running the job `id` at `now` may return, and the records that are
/// held afterwards: on success the job was pending and is now running, with
/// a refreshed update time; `JobNotFound` with `id` where no record stands
/// under it; `InvalidTransition` where the job is not pending; or a
/// `StorageError`. A failure changes nothing.
pub open spec fn is_run_outcome(
    before: Map<Seq<char>, JobView>,
    id: Seq<char>,
    now: Timestamp,
    outcome: Result<(), Error>,
    after: Map<Seq<char>, JobView>,
) -> bool {
    match outcome {
        Ok(()) => before.contains_key(id) && before[id].state == JobState::Pending && after
            == before.insert(id, before[id].with_state(JobState::Running, now)),
        Err(Error::JobNotFound(missing)) => !before.contains_key(id) && missing@ == id && after
            == before,
        Err(Error::InvalidTransition(text)) => before.contains_key(id) && before[id].state
            != JobState::Pending && text@ == not_pending_text() && after == before,
        Err(e) => e is StorageError && after == before,
    }
}

/// A submitted job is found again as it was submitted: where the storage
/// does not fail, loading the identifier that the submission returned gives
/// the submitted record, with the same identifier and the same state.
pub proof fn lemma_submit_then_get(
    before: Map<Seq<char>, JobView>,
    job: JobView,
    submitted: Result<JobId, Error>,
    after: Map<Seq<char>, JobView>,
    found: Result<Job, Error>,
)
    requires
        is_submit_outcome(before, job, submitted, after),
        submitted is Ok,
        is_load_outcome(after, submitted->Ok_0@, found),
        !(found matches Err(Error::StorageError(_))),
    ensures
        found is Ok,
        found->Ok_0@ == job,
        found->Ok_0@.id == job.id,
        found->Ok_0@.state == job.state,
{
}

/// Running a pending job succeeds where the storage does not fail; the
/// stored job is then running, under the same identifier, with the payload
/// and the creation time that it had, and no other record has changed.
pub proof fn lemma_run_pending(
    before: Map<Seq<char>, JobView>,
    id: Seq<char>,
    now: Timestamp,
    outcome: Result<(), Error>,
    after: Map<Seq<char>, JobView>,
)
    requires
        is_run_outcome(before, id, now, outcome, after),
        before.contains_key(id),
        before[id].state == JobState::Pending,
        !(outcome matches Err(Error::StorageError(_))),
    ensures
        outcome is Ok,
        after.dom() == before.dom(),
        after[id].state == JobState::Running,
        after[id].id == before[id].id,
        after[id].data == before[id].data,
        after[id].created_at == before[id].created_at,
        after[id].well_timed(),
        before[id].created_at.at_or_before(now) ==> after[id].updated_at == now,
        forall|other: Seq<char>|
            other != id && before.contains_key(other) ==> after[other] == before[other],
{
    assert(after.dom() =~= before.dom());
}

/// Running a job that is not pending fails with `InvalidTransition` where
/// the storage does not fail, and leaves every record as it was.
pub proof fn lemma_run_not_pending(
    before: Map<Seq<char>, JobView>,
    id: Seq<char>,
    now: Timestamp,
    outcome: Result<(), Error>,
    after: Map<Seq<char>, JobView>,
)
    requires
        is_run_outcome(before, id, now, outcome, after),
        before.contains_key(id),
        before[id].state != JobState::Pending,
        !(outcome matches Err(Error::StorageError(_))),
    ensures
        outcome matches Err(Error::InvalidTransition(text)) && text@ == not_pending_text(),
        after == before,
{
}

/// Loading an identifier under which nothing is stored fails with
/// `JobNotFound` and that identifier, where the storage does not fail.
pub proof fn lemma_get_missing(jobs: Map<Seq<char>, JobView>, id: Seq<char>, found: Result<Job, Error>)
    requires
        is_load_outcome(jobs, id, found),
        !jobs.contains_key(id),
        !(found matches Err(Error::StorageError(_))),
    ensures
        found matches Err(Error::JobNotFound(missing)) && missing@ == id,
{
}

/// Only a successful submission puts a record under a new identifier, and
/// then under the identifier of the submitted job: an identifier that was
/// never submitted stays unknown.
pub proof fn lemma_submit_adds_its_id(
    before: Map<Seq<char>, JobView>,
    job: JobView,
    submitted: Result<JobId, Error>,
    after: Map<Seq<char>, JobView>,
)
    requires
        is_submit_outcome(before, job, submitted, after),
    ensures
        submitted is Ok ==> after.dom() == before.dom().insert(job.id),
        submitted is Err ==> after.dom() == before.dom(),
        forall|id: Seq<char>| id != job.id ==> (after.contains_key(id) <==> before.contains_key(id)),
{
    if submitted is Ok {
        assert(after.dom() =~= before.dom().insert(job.id));
    }
}

/// Neither a run nor a change of state adds or removes a record.
pub proof fn lemma_run_and_update_keep_ids(
    before: Map<Seq<char>, JobView>,
    id: Seq<char>,
    state: JobState,
    now: Timestamp,
    outcome: Result<(), Error>,
    after: Map<Seq<char>, JobView>,
)
    requires
        is_run_outcome(before, id, now, outcome, after) || is_update_outcome(
            before,
            id,
            state,
            now,
            outcome,
            after,
        ),
    ensures
        after.dom() == before.dom(),
{
    assert(after.dom() =~= before.dom());
}

/// The records of a runtime stay well timed and stand under their own
/// identifiers through every request: if that holds of the records before
/// a submission, a run or a change of state, it holds of them afterwards.
pub proof fn lemma_requests_keep_records_sound(
    before: Map<Seq<char>, JobView>,
    after: Map<Seq<char>, JobView>,
    job: JobView,
    submitted: Result<JobId, Error>,
    id: Seq<char>,
    state: JobState,
    now: Timestamp,
    outcome: Result<(), Error>,
)
    requires
        are_sound(before),
        (is_submit_outcome(before, job, submitted, after) && job.well_timed()) || is_run_outcome(
            before,
            id,
            now,
            outcome,
            after,
        ) || is_update_outcome(before, id, state, now, outcome, after),
    ensures
        are_sound(after),
{
}

/// The orchestrator: it holds the registered state machines and one storage,
/// and answers the requests on jobs.
pub struct Runtime<S: Storage = InMemoryStorage> {
    storage: S,
    state_machines: Vec<Box<dyn StateMachine>>,
}

impl Runtime<InMemoryStorage> {
    /// A runtime over an empty in-memory storage, with no state machine
    /// registered.
    pub fn new() -> (made: Result<Self, Error>)
        ensures
            made is Ok,
            made->Ok_0.jobs() == Map::<Seq<char>, JobView>::empty(),
            made->Ok_0.machines() == Seq::<Box<dyn StateMachine>>::empty(),
            made->Ok_0.infallible(),
    {
        Ok(Runtime::with_storage(InMemoryStorage::new()))
    }
}

impl<S: Storage> Runtime<S> {
    /// The records that the storage holds, each under its identifier.
    pub closed spec fn jobs(&self) -> Map<Seq<char>, JobView> {
        self.storage.jobs()
    }

    /// Whether the storage never reports a `StorageError`.
    pub closed spec fn infallible(&self) -> bool {
        self.storage.infallible()
    }

    /// The registered state machines, in the order of their registration.
    pub closed spec fn machines(&self) -> Seq<Box<dyn StateMachine>> {
        self.state_machines@
    }

    /// A runtime over `storage` and what it holds, with no state machine
    /// registered.
    pub fn with_storage(storage: S) -> (runtime: Self)
        ensures
            runtime.jobs() == storage.jobs(),
            runtime.infallible() == storage.infallible(),
            runtime.machines() == Seq::<Box<dyn StateMachine>>::empty(),
    {
        let runtime = Runtime { storage, state_machines: Vec::new() };
        assert(runtime.machines() =~= Seq::<Box<dyn StateMachine>>::empty());
        runtime
    }

    /// Registers `machine` after those registered before. Names are not
    /// compared: a machine may be registered under a name that is taken.
    pub fn register_state_machine(&mut self, machine: Box<dyn StateMachine>)
        ensures
            final(self).machines() == old(self).machines().push(machine),
            final(self).jobs() == old(self).jobs(),
            final(self).infallible() == old(self).infallible(),
    {
        self.state_machines.push(machine);
    }

    /// Stores `job` as it is, whatever its state, and returns its
    /// identifier.
    pub fn submit_job(&mut self, job: Job) -> (outcome: Result<JobId, Error>)
        ensures
            is_submit_outcome(old(self).jobs(), job@, outcome, final(self).jobs()),
            old(self).infallible() ==> outcome is Ok,
            final(self).infallible() == old(self).infallible(),
            final(self).machines() == old(self).machines(),
    {
        let id = job.id().clone();
        match self.storage.save_job(job) {
            Ok(()) => Ok(id),
            Err(e) => Err(e),
        }
    }

    /// A copy of the record that stands under `id`.
    pub fn get_job(&self, id: &JobId) -> (outcome: Result<Job, Error>)
        ensures
            is_load_outcome(self.jobs(), id@, outcome),
            self.infallible() ==> !(outcome matches Err(Error::StorageError(_))),
    {
        self.storage.load_job(id.as_str())
    }

    /// Sets the state of the job `id` to `state`, whatever state it is in,
    /// and refreshes its update time from the clock. No state machine is
    /// asked.
    pub fn update_job_state(&mut self, id: &JobId, state: JobState) -> (outcome: Result<(), Error>)
        ensures
            exists|now: Timestamp|
                is_update_outcome(old(self).jobs(), id@, state, now, outcome, final(self).jobs()),
            old(self).infallible() ==> !(outcome matches Err(Error::StorageError(_))),
            final(self).infallible() == old(self).infallible(),
            final(self).machines() == old(self).machines(),
    {
        let now = read_clock();
        let outcome = self.update_job_state_at(id, state, now);
        assert(is_update_outcome(old(self).jobs(), id@, state, now, outcome, self.jobs()));
        outcome
    }

    /// Sets the state of the job `id` to `state`, whatever state it is in,
    /// and refreshes its update time, the clock reading `now`.
    pub fn update_job_state_at(&mut self, id: &JobId, state: JobState, now: Timestamp) -> (outcome:
        Result<(), Error>)
        ensures
            is_update_outcome(old(self).jobs(), id@, state, now, outcome, final(self).jobs()),
            old(self).infallible() ==> !(outcome matches Err(Error::StorageError(_))),
            final(self).infallible() == old(self).infallible(),
            final(self).machines() == old(self).machines(),
    {
        let mut job = match self.get_job(id) {
            Ok(job) => job,
            Err(e) => {
                return Err(e);
            },
        };
        job.set_state_at(state, now);
        self.storage.save_job(job)
    }

    /// Starts the job `id`: a pending job becomes a running one, with its
    /// update time refreshed from the clock. A job in any other state is
    /// left as it is.
    pub fn run_job(&mut self, id: &JobId) -> (outcome: Result<(), Error>)
        ensures
            exists|now: Timestamp|
                is_run_outcome(old(self).jobs(), id@, now, outcome, final(self).jobs()),
            old(self).infallible() ==> !(outcome matches Err(Error::StorageError(_))),
            final(self).infallible() == old(self).infallible(),
            final(self).machines() == old(self).machines(),
    {
        let now = read_clock();
        let outcome = self.run_job_at(id, now);
        assert(is_run_outcome(old(self).jobs(), id@, now, outcome, self.jobs()));
        outcome
    }

    /// Starts the job `id`, the clock reading `now`: a pending job becomes a
    /// running one, with its update time refreshed. A job in any other state
    /// is left as it is.
    pub fn run_job_at(&mut self, id: &JobId, now: Timestamp) -> (outcome: Result<(), Error>)
        ensures
            is_run_outcome(old(self).jobs(), id@, now, outcome, final(self).jobs()),
            old(self).infallible() ==> !(outcome matches Err(Error::StorageError(_))),
            final(self).infallible() == old(self).infallible(),
            final(self).machines() == old(self).machines(),
    {
        let mut job = match self.get_job(id) {
            Ok(job) => job,
            Err(e) => {
                return Err(e);
            },
        };
        if job.state() != JobState::Pending {
            return Err(Error::InvalidTransition(String::from_str("Job must be pending to run")));
        }
        job.set_state_at(JobState::Running, now);
        self.storage.save_job(job)
    }
}

} // verus!
