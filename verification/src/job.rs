//! The job record: identity, state, payload and the two timestamps.

use crate::text_map::TextMap;
use crate::time::Timestamp;
use crate::time::read_clock;
use vstd::prelude::*;

verus! {

/// The identifier of a job.
pub type JobId = String;

/// A payload value: an arbitrary JSON document, carried and never inspected.
#[verifier::external_type_specification]
#[verifier::external_body]
pub struct ExJsonValue(serde_json::Value);

/// `serde_json::Value::clone` hands back a value equal to the one it was
/// given: the derived impl copies the document node by node.
pub assume_specification[ <serde_json::Value as Clone>::clone ](
    value: &serde_json::Value,
) -> (copy: serde_json::Value)
    ensures
        copy == *value,
;

/// The state of a job.
#[derive(Debug, Clone, Copy, PartialEq, Eq, Structural, Hash)]
pub enum JobState {
    Pending,
    Running,
    Completed,
    Failed,
    Cancelled,
}

impl JobState {
    /// The state's name, as it is written in messages.
    pub open spec fn label(self) -> Seq<char> {
        match self {
            JobState::Pending => "Pending"@,
            JobState::Running => "Running"@,
            JobState::Completed => "Completed"@,
            JobState::Failed => "Failed"@,
            JobState::Cancelled => "Cancelled"@,
        }
    }

    /// The state's name, as it is written in messages.
    pub fn name(&self) -> (n: &'static str)
        ensures
            n@ == self.label(),
    {
        match self {
            JobState::Pending => "Pending",
            JobState::Running => "Running",
            JobState::Completed => "Completed",
            JobState::Failed => "Failed",
            JobState::Cancelled => "Cancelled",
        }
    }
}

/// One lower-case hexadecimal digit.
pub open spec fn is_lower_hex(c: char) -> bool {
    ('0' <= c && c <= '9') || ('a' <= c && c <= 'f')
}

/// The text of a random (version 4) UUID in its hyphenated lower-case form:
/// 36 characters in groups of 8, 4, 4, 4 and 12 hexadecimal digits, the
/// third group starting with `4` and the fourth with `8`, `9`, `a` or `b`.
pub open spec fn is_random_uuid(text: Seq<char>) -> bool {
    &&& text.len() == 36
    &&& forall|i: int|
        0 <= i < 36 ==> if i == 8 || i == 13 || i == 18 || i == 23 {
            text[i] == '-'
        } else {
            is_lower_hex(#[trigger] text[i])
        }
    &&& text[14] == '4'
    &&& (text[19] == '8' || text[19] == '9' || text[19] == 'a' || text[19] == 'b')
}

/// Draws an identifier with `uuid::Uuid::new_v4` and writes it out with the
/// `Display` impl of `Uuid`.
///
/// `new_v4` fixes the version and variant bits of 128 random bits, and
/// `Display` writes the hyphenated lower-case form, so every outcome has the
/// shape that `is_random_uuid` describes. Which identifier comes out is left
/// open. `new_v4` panics where the operating system hands out no random
/// bytes.
#[verifier::external_body]
fn fresh_id() -> (id: JobId)
    ensures
        is_random_uuid(id@),
{
    uuid::Uuid::new_v4().to_string()
}

/// What a job record holds, as mathematical values.
pub struct JobView {
    pub id: Seq<char>,
    pub state: JobState,
    pub data: Map<Seq<char>, serde_json::Value>,
    pub created_at: Timestamp,
    pub updated_at: Timestamp,
}

impl JobView {
    /// A record as it is right after its creation at `now`.
    pub open spec fn fresh(id: Seq<char>, now: Timestamp) -> JobView {
        JobView {
            id,
            state: JobState::Pending,
            data: Map::empty(),
            created_at: now,
            updated_at: now,
        }
    }

    /// The record was not updated before it was created.
    pub open spec fn well_timed(self) -> bool {
        self.created_at.at_or_before(self.updated_at)
    }

    /// The record after a mutation at `now`: the update time is `now`, or
    /// the creation time where the clock reads earlier than that.
    pub open spec fn touched(self, now: Timestamp) -> JobView {
        JobView { updated_at: now.latest(self.created_at), ..self }
    }

    /// The record after its state was set to `state` at `now`.
    pub open spec fn with_state(self, state: JobState, now: Timestamp) -> JobView {
        (JobView { state, ..self }).touched(now)
    }

    /// The record after `key` was set to `value` at `now`.
    pub open spec fn with_data(
        self,
        key: Seq<char>,
        value: serde_json::Value,
        now: Timestamp,
    ) -> JobView {
        (JobView { data: self.data.insert(key, value), ..self }).touched(now)
    }
}

/// A mutation keeps the identifier and the creation time, and leaves the
/// record well timed, whatever the clock read.
pub proof fn lemma_touched(record: JobView, now: Timestamp)
    ensures
        record.touched(now).well_timed(),
        record.touched(now).id == record.id,
        record.touched(now).created_at == record.created_at,
        record.created_at.at_or_before(now) ==> record.touched(now).updated_at == now,
{
}

/// A unit of trackable work.
///
/// A job is never updated before it was created: every constructor and every
/// mutation keeps `created_at` at or before `updated_at`.
#[derive(Debug)]
pub struct Job {
    id: JobId,
    state: JobState,
    data: TextMap<serde_json::Value>,
    created_at: Timestamp,
    updated_at: Timestamp,
}

impl View for Job {
    type V = JobView;

    closed spec fn view(&self) -> JobView {
        JobView {
            id: self.id@,
            state: self.state,
            data: self.data.map(),
            created_at: self.created_at,
            updated_at: self.updated_at,
        }
    }
}

/// A copy of `data`, entry by entry and in the same order.
fn copy_payload(data: &TextMap<serde_json::Value>) -> (copy: TextMap<serde_json::Value>)
    ensures
        copy.keys() == data.keys(),
        copy.values() == data.values(),
        copy.map() == data.map(),
{
    let mut copy: TextMap<serde_json::Value> = TextMap::new();
    let n: usize = data.len();
    let mut i: usize = 0;
    while i < n
        invariant
            i <= n,
            n == data.keys().len(),
            n == data.values().len(),
            data.keys().no_duplicates(),
            copy.keys() == data.keys().take(i as int),
            copy.values() == data.values().take(i as int),
        decreases n - i,
    {
        let key = data.key_at(i).clone();
        let value = data.value_at(i).clone();
        proof {
            let seen = data.keys().take(i as int);
            if seen.contains(key@) {
                let j = seen.index_of(key@);
                assert(data.keys()[j] == data.keys()[i as int]);
            }
            assert(data.keys().take(i + 1) =~= seen.push(key@));
            assert(data.values().take(i + 1) =~= data.values().take(i as int).push(value));
        }
        copy.insert(key, value);
        i += 1;
    }
    proof {
        assert(data.keys().take(n as int) =~= data.keys());
        assert(data.values().take(n as int) =~= data.values());
    }
    copy
}

impl Clone for Job {
    /// A copy that holds the same record.
    fn clone(&self) -> (copy: Self)
        ensures
            copy@ == self@,
    {
        proof {
            use_type_invariant(self);
        }
        Job {
            id: self.id.clone(),
            state: self.state,
            data: copy_payload(&self.data),
            created_at: self.created_at,
            updated_at: self.updated_at,
        }
    }
}

impl Default for Job {
    /// A pending job with a random identifier and no data, created now.
    fn default() -> (job: Self)
        ensures
            is_random_uuid(job@.id),
            job@ == JobView::fresh(job@.id, job@.created_at),
    {
        Job::with_id(fresh_id())
    }
}

impl Job {
    #[verifier::type_invariant]
    spec fn created_before_updated(&self) -> bool {
        self.created_at.at_or_before(self.updated_at)
    }

    /// A pending job with a random identifier and no data, created now.
    pub fn new() -> (job: Self)
        ensures
            is_random_uuid(job@.id),
            job@ == JobView::fresh(job@.id, job@.created_at),
    {
        Job::with_id(fresh_id())
    }

    /// A pending job with the identifier `id` and no data, created now.
    pub fn with_id(id: JobId) -> (job: Self)
        ensures
            job@ == JobView::fresh(id@, job@.created_at),
    {
        Job::with_id_at(id, read_clock())
    }

    /// A pending job with the identifier `id` and no data, created at `now`.
    pub fn with_id_at(id: JobId, now: Timestamp) -> (job: Self)
        ensures
            job@ == JobView::fresh(id@, now),
    {
        Job { id, state: JobState::Pending, data: TextMap::new(), created_at: now, updated_at: now }
    }

    /// Sets the state and refreshes the update time from the clock.
    pub fn set_state(&mut self, state: JobState)
        ensures
            exists|now: Timestamp| final(self)@ == old(self)@.with_state(state, now),
            final(self)@.state == state,
            final(self)@.well_timed(),
    {
        let now = read_clock();
        self.set_state_at(state, now);
        assert(self@ == old(self)@.with_state(state, now));
    }

    /// Sets the state and refreshes the update time, the clock reading `now`.
    ///
    /// No rule on state changes is applied here: whether a change is legal
    /// is for a state machine to say.
    pub fn set_state_at(&mut self, state: JobState, now: Timestamp)
        ensures
            final(self)@ == old(self)@.with_state(state, now),
    {
        proof {
            use_type_invariant(&*self);
        }
        self.state = state;
        self.updated_at = now.later_of(self.created_at);
    }

    /// Maps `key` to `value` in the payload, replacing what `key` was mapped
    /// to, and refreshes the update time from the clock.
    pub fn set_data(&mut self, key: String, value: serde_json::Value)
        ensures
            exists|now: Timestamp| final(self)@ == old(self)@.with_data(key@, value, now),
            final(self)@.data == old(self)@.data.insert(key@, value),
            final(self)@.well_timed(),
    {
        let now = read_clock();
        self.set_data_at(key, value, now);
        assert(self@ == old(self)@.with_data(key@, value, now));
    }

    /// Maps `key` to `value` in the payload, replacing what `key` was mapped
    /// to, and refreshes the update time, the clock reading `now`.
    pub fn set_data_at(&mut self, key: String, value: serde_json::Value, now: Timestamp)
        ensures
            final(self)@ == old(self)@.with_data(key@, value, now),
    {
        proof {
            use_type_invariant(&*self);
        }
        // The payload is taken out while it changes, so that `self` is never
        // seen half-updated.
        let mut data: TextMap<serde_json::Value> = TextMap::new();
        core::mem::swap(&mut self.data, &mut data);
        data.insert(key, value);
        core::mem::swap(&mut self.data, &mut data);
        self.updated_at = now.later_of(self.created_at);
    }

    /// The identifier.
    pub fn id(&self) -> (id: &JobId)
        ensures
            id@ == self@.id,
    {
        &self.id
    }

    /// The state.
    pub fn state(&self) -> (state: JobState)
        ensures
            state == self@.state,
    {
        self.state
    }

    /// The payload.
    pub fn data(&self) -> (data: &TextMap<serde_json::Value>)
        ensures
            data.map() == self@.data,
    {
        &self.data
    }

    /// When the job was created; never later than its last update.
    pub fn created_at(&self) -> (t: Timestamp)
        ensures
            t == self@.created_at,
            self@.well_timed(),
    {
        proof {
            use_type_invariant(self);
        }
        self.created_at
    }

    /// When the job was last updated; never earlier than its creation.
    pub fn updated_at(&self) -> (t: Timestamp)
        ensures
            t == self@.updated_at,
            self@.well_timed(),
    {
        proof {
            use_type_invariant(self);
        }
        self.updated_at
    }
}

} // verus!
