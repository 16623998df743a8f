//! State machines: named, fixed tables of legal state changes.

use crate::error::Error;
use crate::job::JobState;
use vstd::prelude::*;

verus! {

/// One legal change of state.
///
/// The condition is carried along and never consulted: a change is legal
/// where its two states match an entry of the table, whatever condition that
/// entry holds.
#[derive(Debug)]
pub struct Transition {
    pub from: JobState,
    pub to: JobState,
    pub condition: Option<String>,
}

/// A transition, as mathematical values.
pub struct TransitionView {
    pub from: JobState,
    pub to: JobState,
    pub condition: Option<Seq<char>>,
}

impl View for Transition {
    type V = TransitionView;

    open spec fn view(&self) -> TransitionView {
        TransitionView {
            from: self.from,
            to: self.to,
            condition: match self.condition {
                Some(text) => Some(text@),
                None => None,
            },
        }
    }
}

impl Clone for Transition {
    fn clone(&self) -> (copy: Self)
        ensures
            copy@ == self@,
    {
        let condition = match &self.condition {
            Some(text) => Some(text.clone()),
            None => None,
        };
        Transition { from: self.from, to: self.to, condition }
    }
}

/// The views of a list of transitions, in order.
pub open spec fn table_of(list: Seq<Transition>) -> Seq<TransitionView> {
    list.map_values(|t: Transition| t@)
}

/// Whether `table` holds an entry from `from` to `to`.
pub open spec fn permits(table: Seq<TransitionView>, from: JobState, to: JobState) -> bool {
    exists|i: int| 0 <= i < table.len() && table[i].from == from && table[i].to == to
}

/// The text that names a rejected change of state.
pub open spec fn rejection_text(from: JobState, to: JobState) -> Seq<char> {
    "Cannot transition from "@ + from.label() + " to "@ + to.label()
}

/// What validating a change from `from` to `to` against `table` returns:
/// success where the table permits the change, and otherwise an
/// `InvalidTransition` that names the two states.
pub open spec fn is_verdict(
    table: Seq<TransitionView>,
    from: JobState,
    to: JobState,
    verdict: Result<(), Error>,
) -> bool {
    match verdict {
        Ok(()) => permits(table, from, to),
        Err(Error::InvalidTransition(text)) => !permits(table, from, to) && text@
            == rejection_text(from, to),
        Err(_) => false,
    }
}

/// A named, fixed table of legal state changes, with the queries on it.
pub trait StateMachine: Send + Sync {
    /// The machine's name.
    spec fn label(&self) -> Seq<char>;

    /// The machine's table.
    spec fn table(&self) -> Seq<TransitionView>;

    /// The machine's name.
    fn name(&self) -> (name: &str)
        ensures
            name@ == self.label(),
    ;

    /// The table, entry by entry in its order. Each call hands out a new
    /// copy of the whole table.
    fn transitions(&self) -> (list: Vec<Transition>)
        ensures
            table_of(list@) == self.table(),
    ;

    /// Whether the table holds an entry from `from` to `to`.
    fn can_transition(&self, from: &JobState, to: &JobState) -> (allowed: bool)
        ensures
            allowed == permits(self.table(), *from, *to),
    ;

    /// Succeeds where the table permits the change; otherwise fails with an
    /// `InvalidTransition` that names the two states.
    fn validate_transition(&self, from: &JobState, to: &JobState) -> (verdict: Result<(), Error>)
        ensures
            is_verdict(self.table(), *from, *to, verdict),
    ;
}

/// The table of the default machine: a pending job may start running, and a
/// running job may complete or fail.
pub open spec fn default_table() -> Seq<TransitionView> {
    seq![
        TransitionView { from: JobState::Pending, to: JobState::Running, condition: None },
        TransitionView { from: JobState::Running, to: JobState::Completed, condition: None },
        TransitionView { from: JobState::Running, to: JobState::Failed, condition: None },
    ]
}

/// The default table permits exactly three changes.
pub proof fn lemma_default_table(from: JobState, to: JobState)
    ensures
        permits(default_table(), from, to) <==> (from == JobState::Pending && to
            == JobState::Running) || (from == JobState::Running && (to == JobState::Completed || to
            == JobState::Failed)),
{
    let table = default_table();
    if from == JobState::Pending && to == JobState::Running {
        assert(table[0].from == from && table[0].to == to);
    }
    if from == JobState::Running && to == JobState::Completed {
        assert(table[1].from == from && table[1].to == to);
    }
    if from == JobState::Running && to == JobState::Failed {
        assert(table[2].from == from && table[2].to == to);
    }
}

/// The state machine that this crate provides: a name chosen by the caller
/// and the default table.
pub struct SimpleStateMachine {
    name: String,
    transitions: Vec<Transition>,
}

impl SimpleStateMachine {
    /// A machine called `name` that holds the default table.
    pub fn new(name: &str) -> (machine: Self)
        ensures
            machine.label() == name@,
            machine.table() == default_table(),
    {
        let mut transitions: Vec<Transition> = Vec::new();
        transitions.push(
            Transition { from: JobState::Pending, to: JobState::Running, condition: None },
        );
        transitions.push(
            Transition { from: JobState::Running, to: JobState::Completed, condition: None },
        );
        transitions.push(
            Transition { from: JobState::Running, to: JobState::Failed, condition: None },
        );
        assert(table_of(transitions@) =~= default_table());
        SimpleStateMachine { name: String::from_str(name), transitions }
    }
}

impl StateMachine for SimpleStateMachine {
    closed spec fn label(&self) -> Seq<char> {
        self.name@
    }

    closed spec fn table(&self) -> Seq<TransitionView> {
        table_of(self.transitions@)
    }

    fn name(&self) -> (name: &str) {
        self.name.as_str()
    }

    fn transitions(&self) -> (list: Vec<Transition>) {
        let mut list: Vec<Transition> = Vec::new();
        let mut i: usize = 0;
        while i < self.transitions.len()
            invariant
                i <= self.transitions@.len(),
                table_of(list@) == table_of(self.transitions@).take(i as int),
            decreases self.transitions@.len() - i,
        {
            let entry = self.transitions[i].clone();
            proof {
                let before = table_of(list@);
                let after = table_of(list@.push(entry));
                let wanted = table_of(self.transitions@).take(i + 1);
                assert(before.len() == i);
                assert forall|j: int| 0 <= j < after.len() implies after[j] == wanted[j] by {
                    if j < i {
                        assert(after[j] == before[j]);
                        assert(before[j] == table_of(self.transitions@).take(i as int)[j]);
                    }
                }
                assert(after =~= wanted);
            }
            list.push(entry);
            i += 1;
        }
        assert(table_of(self.transitions@).take(i as int) =~= table_of(self.transitions@));
        list
    }

    fn can_transition(&self, from: &JobState, to: &JobState) -> (allowed: bool) {
        let mut i: usize = 0;
        while i < self.transitions.len()
            invariant
                i <= self.transitions@.len(),
                forall|j: int|
                    0 <= j < i ==> !(self.table()[j].from == *from && self.table()[j].to == *to),
            decreases self.transitions@.len() - i,
        {
            if self.transitions[i].from == *from && self.transitions[i].to == *to {
                assert(self.table()[i as int].from == *from && self.table()[i as int].to == *to);
                return true;
            }
            i += 1;
        }
        false
    }

    fn validate_transition(&self, from: &JobState, to: &JobState) -> (verdict: Result<(), Error>) {
        if !self.can_transition(from, to) {
            let text = String::from_str("Cannot transition from ").concat(from.name()).concat(
                " to ",
            ).concat(to.name());
            return Err(Error::InvalidTransition(text));
        }
        Ok(())
    }
}

} // verus!
