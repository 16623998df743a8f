//! A minimal job lifecycle tracker: job records, state machines that say
//! which changes of state are legal, storage for the records, and a runtime
//! that answers requests on jobs.

pub mod error;
pub mod job;
pub mod runtime;
pub mod state_machine;
pub mod storage;
pub mod text_map;
pub mod time;

pub use error::Error;
pub use job::{Job, JobId, JobState};
pub use runtime::Runtime;
pub use state_machine::{StateMachine, Transition};
pub use storage::Storage;
